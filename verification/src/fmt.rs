//! Building the console messages and the window title character by
//! character, so that every produced string is pinned down exactly.

use vstd::prelude::*;
use crate::ansi::chars_to_string;

verus! {

/// The digit character for a value below ten.
pub open spec fn digit_char(d: nat) -> char {
    if d == 0 {
        '0'
    } else if d == 1 {
        '1'
    } else if d == 2 {
        '2'
    } else if d == 3 {
        '3'
    } else if d == 4 {
        '4'
    } else if d == 5 {
        '5'
    } else if d == 6 {
        '6'
    } else if d == 7 {
        '7'
    } else if d == 8 {
        '8'
    } else {
        '9'
    }
}

/// The decimal digits of `n`, most significant first, with no leading
/// zeros (zero itself is the single digit `0`).
pub open spec fn dec_of(n: nat) -> Seq<char>
    decreases n,
{
    if n < 10 {
        seq![digit_char(n)]
    } else {
        dec_of(n / 10).push(digit_char(n % 10))
    }
}

/// Appends the decimal digits of `n` to `out`.
pub fn push_u32_dec(n: u32, out: &mut Vec<char>)
    ensures
        final(out)@ == old(out)@ + dec_of(n as nat),
    decreases n,
{
    if n >= 10 {
        push_u32_dec(n / 10, out);
    }
    let d = n % 10;
    let c: char = if d == 0 {
        '0'
    } else if d == 1 {
        '1'
    } else if d == 2 {
        '2'
    } else if d == 3 {
        '3'
    } else if d == 4 {
        '4'
    } else if d == 5 {
        '5'
    } else if d == 6 {
        '6'
    } else if d == 7 {
        '7'
    } else if d == 8 {
        '8'
    } else {
        '9'
    };
    out.push(c);
    proof {
        if n < 10 {
            assert(old(out)@ + dec_of(n as nat) == old(out)@.push(digit_char(n as nat)));
        }
    }
}

/// Appends the characters of `s` to `out`.
pub fn push_str_chars(s: &str, out: &mut Vec<char>)
    ensures
        final(out)@ == old(out)@ + s@,
{
    let n = s.unicode_len();
    let mut i: usize = 0;
    while i < n
        invariant
            i <= n,
            n == s@.len(),
            out@ == old(out)@ + s@.subrange(0, i as int),
        decreases n - i,
    {
        out.push(s.get_char(i));
        assert(s@.subrange(0, i + 1 as int) == s@.subrange(0, i as int).push(s@[i as int]));
        i = i + 1;
    }
    assert(s@.subrange(0, n as int) == s@);
}

/// The lowercase hexadecimal digit for a value below sixteen.
pub open spec fn hex_digit_char(d: nat) -> char {
    if d == 0 {
        '0'
    } else if d == 1 {
        '1'
    } else if d == 2 {
        '2'
    } else if d == 3 {
        '3'
    } else if d == 4 {
        '4'
    } else if d == 5 {
        '5'
    } else if d == 6 {
        '6'
    } else if d == 7 {
        '7'
    } else if d == 8 {
        '8'
    } else if d == 9 {
        '9'
    } else if d == 10 {
        'a'
    } else if d == 11 {
        'b'
    } else if d == 12 {
        'c'
    } else if d == 13 {
        'd'
    } else if d == 14 {
        'e'
    } else {
        'f'
    }
}

/// The hexadecimal digits of an ASCII control character's code point,
/// without leading zeros.
pub open spec fn control_hex(u: nat) -> Seq<char> {
    if u == 127 {
        seq!['7', 'f']
    } else if u < 16 {
        seq![hex_digit_char(u)]
    } else {
        seq!['1', hex_digit_char((u - 16) as nat)]
    }
}

/// One character of an argument as it is shown inside quotation marks, as
/// std's debug form shows ASCII text: quotation marks and backslashes get
/// a leading backslash, the common control characters their usual named
/// escapes, the other ASCII control characters a hexadecimal escape, and
/// everything else (including all characters beyond ASCII) stays as it is.
pub open spec fn escaped_char(c: char) -> Seq<char> {
    if c == '"' {
        seq!['\\', '"']
    } else if c == '\\' {
        seq!['\\', '\\']
    } else if c == '\n' {
        seq!['\\', 'n']
    } else if c == '\r' {
        seq!['\\', 'r']
    } else if c == '\t' {
        seq!['\\', 't']
    } else if c == '\0' {
        seq!['\\', '0']
    } else if (c as u32) < 32 || c as u32 == 127 {
        seq!['\\', 'u', '{'] + control_hex(c as u32 as nat) + seq!['}']
    } else {
        seq![c]
    }
}

/// An argument's characters with the escapes applied.
pub open spec fn escaped_arg(s: Seq<char>) -> Seq<char>
    decreases s.len(),
{
    if s.len() == 0 {
        Seq::empty()
    } else {
        escaped_arg(s.drop_last()) + escaped_char(s.last())
    }
}

/// An argument as shown: escaped and wrapped in quotation marks.
pub open spec fn quoted_arg(s: Seq<char>) -> Seq<char> {
    seq!['"'] + escaped_arg(s) + seq!['"']
}

/// The arguments joined with comma and space, each quoted.
pub open spec fn joined_args(args: Seq<Seq<char>>) -> Seq<char>
    decreases args.len(),
{
    if args.len() == 0 {
        Seq::empty()
    } else if args.len() == 1 {
        quoted_arg(args[0])
    } else {
        joined_args(args.drop_last()) + ", "@ + quoted_arg(args.last())
    }
}

/// The argument list as shown: quoted, comma-separated, in brackets.
pub open spec fn args_list(args: Seq<Seq<char>>) -> Seq<char> {
    seq!['['] + joined_args(args) + seq![']']
}

/// The views of a vector of strings.
pub open spec fn views_of(args: Seq<String>) -> Seq<Seq<char>> {
    args.map_values(|a: String| a@)
}

/// The lowercase hexadecimal digit for a value below sixteen.
fn hex_digit(d: u32) -> (c: char)
    requires
        d < 16,
    ensures
        c == hex_digit_char(d as nat),
{
    if d == 0 {
        '0'
    } else if d == 1 {
        '1'
    } else if d == 2 {
        '2'
    } else if d == 3 {
        '3'
    } else if d == 4 {
        '4'
    } else if d == 5 {
        '5'
    } else if d == 6 {
        '6'
    } else if d == 7 {
        '7'
    } else if d == 8 {
        '8'
    } else if d == 9 {
        '9'
    } else if d == 10 {
        'a'
    } else if d == 11 {
        'b'
    } else if d == 12 {
        'c'
    } else if d == 13 {
        'd'
    } else if d == 14 {
        'e'
    } else {
        'f'
    }
}

/// Appends the shown form of one argument character to `out`.
fn push_escaped_char(c: char, out: &mut Vec<char>)
    ensures
        final(out)@ == old(out)@ + escaped_char(c),
{
    if c == '"' {
        out.push('\\');
        out.push('"');
    } else if c == '\\' {
        out.push('\\');
        out.push('\\');
    } else if c == '\n' {
        out.push('\\');
        out.push('n');
    } else if c == '\r' {
        out.push('\\');
        out.push('r');
    } else if c == '\t' {
        out.push('\\');
        out.push('t');
    } else if c == '\0' {
        out.push('\\');
        out.push('0');
    } else if (c as u32) < 32 || c as u32 == 127 {
        out.push('\\');
        out.push('u');
        out.push('{');
        let u = c as u32;
        if u == 127 {
            out.push('7');
            out.push('f');
        } else if u < 16 {
            out.push(hex_digit(u));
        } else {
            out.push('1');
            out.push(hex_digit(u - 16));
        }
        out.push('}');
    } else {
        out.push(c);
    }
    proof {
        assert(out@ =~= old(out)@ + escaped_char(c));
    }
}

/// Appends one argument, quoted and escaped, to `out`.
fn push_quoted_arg(s: &String, out: &mut Vec<char>)
    ensures
        final(out)@ == old(out)@ + quoted_arg(s@),
{
    out.push('"');
    let n = s.as_str().unicode_len();
    let mut i: usize = 0;
    while i < n
        invariant
            i <= n,
            n == s@.len(),
            out@ == old(out)@ + seq!['"'] + escaped_arg(s@.subrange(0, i as int)),
        decreases n - i,
    {
        let c = s.as_str().get_char(i);
        push_escaped_char(c, out);
        proof {
            let pre = s@.subrange(0, i as int);
            let cur = s@.subrange(0, i + 1 as int);
            assert(cur.drop_last() == pre);
            assert(cur.last() == s@[i as int]);
            assert(escaped_arg(cur) == escaped_arg(pre) + escaped_char(s@[i as int]));
        }
        i = i + 1;
    }
    out.push('"');
    proof {
        assert(s@.subrange(0, n as int) == s@);
    }
}

/// Appends the bracketed, quoted argument list to `out`.
fn push_args_list(args: &Vec<String>, out: &mut Vec<char>)
    ensures
        final(out)@ == old(out)@ + args_list(views_of(args@)),
{
    out.push('[');
    let n = args.len();
    let mut i: usize = 0;
    while i < n
        invariant
            i <= n,
            n == args@.len(),
            out@ == old(out)@ + seq!['['] + joined_args(views_of(args@.subrange(0, i as int))),
        decreases n - i,
    {
        if i > 0 {
            out.push(',');
            out.push(' ');
            proof {
                assert((", ")@ == seq![',', ' ']) by {
                    reveal_strlit(", ");
                }
            }
        }
        push_quoted_arg(&args[i], out);
        proof {
            let pre = views_of(args@.subrange(0, i as int));
            let cur = views_of(args@.subrange(0, i + 1 as int));
            assert(args@.subrange(0, i + 1 as int).drop_last() == args@.subrange(0, i as int));
            assert(cur.drop_last() == pre);
            assert(cur.last() == args@[i as int]@);
            if i == 0 {
                assert(joined_args(cur) == quoted_arg(args@[0]@));
            } else {
                assert(joined_args(cur) == joined_args(pre) + ", "@ + quoted_arg(
                    args@[i as int]@,
                ));
            }
        }
        i = i + 1;
    }
    out.push(']');
    proof {
        assert(args@.subrange(0, n as int) == args@);
    }
}

/// The window title announcing the working directory: an operating-system
/// command escape around the directory name and the tool's name.
pub open spec fn title_of(dir: Seq<char>) -> Seq<char> {
    "\u{1b}]0;"@ + dir + " - sbt\u{7}"@
}

/// The terminal escape that sets the window title to the directory name
/// followed by the tool's name.
pub fn window_title(dir: &str) -> (out: String)
    ensures
        out@ == title_of(dir@),
{
    let mut v: Vec<char> = Vec::new();
    push_str_chars("\u{1b}]0;", &mut v);
    push_str_chars(dir, &mut v);
    push_str_chars(" - sbt\u{7}", &mut v);
    chars_to_string(&v)
}

/// The note printed when the background server process has been spawned.
pub open spec fn bg_started_text(pid: u32) -> Seq<char> {
    "background sbt started with PID: "@ + dec_of(pid as nat)
}

/// The note printed when the interactive process has been spawned.
pub open spec fn fg_started_text(pid: u32, args: Seq<Seq<char>>) -> Seq<char> {
    "foreground sbt started with PID: "@ + dec_of(pid as nat) + " and args: "@ + args_list(args)
}

/// The note printed when the interactive process has exited.
pub open spec fn fg_exited_text(status: Seq<char>) -> Seq<char> {
    "foreground sbt exited with status: "@ + status
}

/// The note printed when the background process has been killed.
pub open spec fn bg_killed_text(pid: u32) -> Seq<char> {
    "background sbt with PID "@ + dec_of(pid as nat) + " killed"@
}

/// The complaint when a spawn failed.
pub open spec fn spawn_failed_text(error: Seq<char>) -> Seq<char> {
    "Failed to start sbt: "@ + error
}

/// The complaint when waiting on the interactive process failed.
pub open spec fn wait_failed_text(error: Seq<char>) -> Seq<char> {
    "Failed to wait on sbt: "@ + error
}

/// The complaint when killing the background process failed.
pub open spec fn kill_failed_text(error: Seq<char>) -> Seq<char> {
    "Failed to kill background sbt: "@ + error
}

/// The note for a fresh background server process.
pub fn bg_started_message(pid: u32) -> (out: String)
    ensures
        out@ == bg_started_text(pid),
{
    let mut v: Vec<char> = Vec::new();
    push_str_chars("background sbt started with PID: ", &mut v);
    push_u32_dec(pid, &mut v);
    chars_to_string(&v)
}

/// The note for a fresh interactive process with its arguments.
pub fn fg_started_message(pid: u32, args: &Vec<String>) -> (out: String)
    ensures
        out@ == fg_started_text(pid, views_of(args@)),
{
    let mut v: Vec<char> = Vec::new();
    push_str_chars("foreground sbt started with PID: ", &mut v);
    push_u32_dec(pid, &mut v);
    push_str_chars(" and args: ", &mut v);
    push_args_list(args, &mut v);
    chars_to_string(&v)
}

/// The note for an interactive process that exited with `status`.
pub fn fg_exited_message(status: &str) -> (out: String)
    ensures
        out@ == fg_exited_text(status@),
{
    let mut v: Vec<char> = Vec::new();
    push_str_chars("foreground sbt exited with status: ", &mut v);
    push_str_chars(status, &mut v);
    chars_to_string(&v)
}

/// The note for a background process that was killed.
pub fn bg_killed_message(pid: u32) -> (out: String)
    ensures
        out@ == bg_killed_text(pid),
{
    let mut v: Vec<char> = Vec::new();
    push_str_chars("background sbt with PID ", &mut v);
    push_u32_dec(pid, &mut v);
    push_str_chars(" killed", &mut v);
    chars_to_string(&v)
}

/// The complaint for a spawn that failed with `error`.
pub fn spawn_failed_message(error: &str) -> (out: String)
    ensures
        out@ == spawn_failed_text(error@),
{
    let mut v: Vec<char> = Vec::new();
    push_str_chars("Failed to start sbt: ", &mut v);
    push_str_chars(error, &mut v);
    chars_to_string(&v)
}

/// The complaint for a wait that failed with `error`.
pub fn wait_failed_message(error: &str) -> (out: String)
    ensures
        out@ == wait_failed_text(error@),
{
    let mut v: Vec<char> = Vec::new();
    push_str_chars("Failed to wait on sbt: ", &mut v);
    push_str_chars(error, &mut v);
    chars_to_string(&v)
}

/// The complaint for a kill that failed with `error`.
pub fn kill_failed_message(error: &str) -> (out: String)
    ensures
        out@ == kill_failed_text(error@),
{
    let mut v: Vec<char> = Vec::new();
    push_str_chars("Failed to kill background sbt: ", &mut v);
    push_str_chars(error, &mut v);
    chars_to_string(&v)
}

} // verus!
