//! Coloring a cleaned line for the console, and the one-stop treatment of
//! a line of server output: clean it, color it, and report whether it
//! carries the readiness marker.
//!
//! Whether color is applied at all depends on the terminal and the
//! environment, so the contracts here list every form the printed line can
//! take rather than picking one.

use vstd::prelude::*;
use colored::Colorize;
use crate::ansi::strip_ansi;
use crate::ansi::strip_ansi_escapes;
use crate::ansi::str_to_chars;
use crate::fmt::dec_of;
use crate::search::contains_seq;
use crate::search::contains_str;
use crate::search::ready_marker;

verus! {

/// A true-color terminal foreground color.
pub struct Rgb {
    pub r: u8,
    pub g: u8,
    pub b: u8,
}

/// The reset sequence that closes a colored stretch of text.
pub open spec fn reset_seq() -> Seq<char> {
    seq!['\u{1b}', '[', '0', 'm']
}

/// The smallest index where `n` occurs in `h`, or `-1` if it never does.
pub open spec fn first_match(h: Seq<char>, n: Seq<char>) -> int
    decreases h.len(),
{
    if n.len() == 0 {
        0
    } else if h.len() < n.len() {
        -1
    } else if h.subrange(0, n.len() as int) == n {
        0
    } else if first_match(h.subrange(1, h.len() as int), n) < 0 {
        -1
    } else {
        first_match(h.subrange(1, h.len() as int), n) + 1
    }
}

/// The text with `style` re-opened after every reset sequence it already
/// carries, left to right.
pub open spec fn with_style_after_resets(s: Seq<char>, style: Seq<char>) -> Seq<char>
    decreases s.len(),
{
    let m = first_match(s, reset_seq());
    if 0 <= m && m + 4 <= s.len() {
        s.subrange(0, m + 4) + style + with_style_after_resets(
            s.subrange(m + 4, s.len() as int),
            style,
        )
    } else {
        s
    }
}

/// The text wrapped in a style opener and the closing reset.
pub open spec fn styled(s: Seq<char>, style: Seq<char>) -> Seq<char> {
    style + with_style_after_resets(s, style) + reset_seq()
}

/// The style opener for a true-color foreground.
pub open spec fn truecolor_style(r: u8, g: u8, b: u8) -> Seq<char> {
    "\u{1b}[38;2;"@ + dec_of(r as nat) + ";"@ + dec_of(g as nat) + ";"@ + dec_of(b as nat) + "m"@
}

/// A style opener for one of the sixteen basic foreground colors.
pub open spec fn is_basic_fg_style(st: Seq<char>) -> bool {
    &&& st.len() == 5
    &&& st[0] == '\u{1b}'
    &&& st[1] == '['
    &&& (st[2] == '3' || st[2] == '9')
    &&& (st[3] == '0' || st[3] == '1' || st[3] == '2' || st[3] == '3' || st[3] == '4' || st[3]
        == '5' || st[3] == '6' || st[3] == '7')
    &&& st[4] == 'm'
}

/// Every form the console line can take for input `s` and the requested
/// true color: unchanged when color is off; opened with the requested
/// true-color style when the terminal supports it; or opened with the
/// nearest basic color's style when it does not.
pub open spec fn colored_outcome(s: Seq<char>, r: u8, g: u8, b: u8, out: Seq<char>) -> bool {
    ||| out == s
    ||| out == styled(s, truecolor_style(r, g, b))
    ||| exists|st: Seq<char>| is_basic_fg_style(st) && out == styled(s, st)
}

/// Relies on colored's `Colorize::color` and the `Display` of its
/// `ColoredString`: when coloring is off the text passes through
/// unchanged; otherwise it is wrapped in a foreground style opener and a
/// reset, with the opener re-inserted after each reset already inside the
/// text, and the opener is the requested true color or, without terminal
/// support for it, a basic color.
#[verifier::external_body]
fn color_text(s: &str, color: &Rgb) -> (r: String)
    ensures
        colored_outcome(s@, color.r, color.g, color.b, r@),
{
    s.color(colored::Color::TrueColor { r: color.r, g: color.g, b: color.b }).to_string()
}

/// One line of server output, made ready for the console: the escape
/// sequences go, the remainder is colored for display, and the second component says
/// whether the cleaned line carries the readiness marker.
pub fn process_line(line: &str, color: &Rgb) -> (res: (String, bool))
    ensures
        ({
            let cleaned = strip_ansi(line@);
            &&& res.1 == contains_seq(cleaned, ready_marker())
            &&& colored_outcome(cleaned, color.r, color.g, color.b, res.0@)
        }),
{
    let cleaned = strip_ansi_escapes(line);
    let cleaned_chars = str_to_chars(cleaned.as_str());
    let ready = contains_str(&cleaned_chars, "started sbt server");
    let display = color_text(cleaned.as_str(), color);
    (display, ready)
}

} // verus!
