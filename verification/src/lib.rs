//! Verified core of a small launcher that warms up a build-tool server in
//! the background and then attaches a second, interactive instance.
//!
//! The pieces that decide something or shape text live here: cleaning a
//! line of server output, spotting the readiness marker in it, wrapping the
//! line in a terminal color, composing the console messages and the window
//! title, and the supervisor that turns process events into the next action.
//! Spawning, waiting on and killing the processes themselves is left to the
//! surrounding program.

pub mod ansi;
pub mod color;
pub mod fmt;
pub mod search;
pub mod supervisor;
