[package]
name = "sbt_warm"
version = "0.1.0"
edition = "2021"
publish = false

[dependencies]
colored = "2"

[dev-dependencies]
regex = "1"
