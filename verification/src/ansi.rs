//! Removal of ANSI escape sequences from build-server output.
//!
//! An escape sequence is an escape character, an opening bracket, a run of
//! parameter characters (digits, semicolons and question marks), and one
//! final ASCII letter. Every leftmost such sequence is deleted and all
//! other characters are kept in order.

use vstd::prelude::*;

verus! {

/// The escape character that opens a sequence to remove.
pub open spec fn esc_char() -> char {
    '\u{1b}'
}

/// A parameter character of an escape sequence: a digit, a semicolon or a
/// question mark.
pub open spec fn is_ansi_param(c: char) -> bool {
    ||| ('0' as u32) <= (c as u32) <= ('9' as u32)
    ||| c == ';'
    ||| c == '?'
}

/// The final character of an escape sequence: an ASCII letter.
pub open spec fn is_ansi_final(c: char) -> bool {
    ||| ('A' as u32) <= (c as u32) <= ('Z' as u32)
    ||| ('a' as u32) <= (c as u32) <= ('z' as u32)
}

/// The first index at or after `j` that does not hold a parameter
/// character, or the end of `s`.
pub open spec fn param_run_end(s: Seq<char>, j: int) -> int
    decreases s.len() - j,
{
    if 0 <= j < s.len() && is_ansi_param(s[j]) {
        param_run_end(s, j + 1)
    } else {
        j
    }
}

/// The length of the escape sequence starting at `i`, or zero when none
/// starts there: escape character, bracket, parameter run, final letter.
pub open spec fn esc_match_len(s: Seq<char>, i: int) -> int {
    if 0 <= i && i + 1 < s.len() && s[i] == esc_char() && s[i + 1] == '[' {
        let p = param_run_end(s, i + 2);
        if p < s.len() && is_ansi_final(s[p]) {
            p + 1 - i
        } else {
            0
        }
    } else {
        0
    }
}

/// What `param_run_end` returns: everything before it is a parameter
/// character, and it stops at the first character that is not one.
pub proof fn lemma_param_run_end(s: Seq<char>, j: int)
    requires
        0 <= j <= s.len(),
    ensures
        j <= param_run_end(s, j) <= s.len(),
        forall|k: int| j <= k < param_run_end(s, j) ==> is_ansi_param(s[k]),
        param_run_end(s, j) < s.len() ==> !is_ansi_param(s[param_run_end(s, j)]),
    decreases s.len() - j,
{
    if j < s.len() && is_ansi_param(s[j]) {
        lemma_param_run_end(s, j + 1);
    }
}

/// The input with every leftmost escape sequence deleted: a character that
/// starts a sequence goes along with the whole sequence, any other
/// character stays.
pub open spec fn strip_ansi(s: Seq<char>) -> Seq<char>
    decreases s.len(),
{
    if s.len() == 0 {
        s
    } else {
        let m = esc_match_len(s, 0);
        if 2 < m <= s.len() {
            strip_ansi(s.subrange(m, s.len() as int))
        } else {
            seq![s[0]] + strip_ansi(s.subrange(1, s.len() as int))
        }
    }
}

/// The characters of `s`, one by one.
pub fn str_to_chars(s: &str) -> (v: Vec<char>)
    ensures
        v@ == s@,
{
    let n = s.unicode_len();
    let mut v: Vec<char> = Vec::new();
    let mut i: usize = 0;
    while i < n
        invariant
            i <= n,
            n == s@.len(),
            v@ == s@.subrange(0, i as int),
        decreases n - i,
    {
        let c = s.get_char(i);
        v.push(c);
        assert(s@.subrange(0, i + 1 as int) == s@.subrange(0, i as int).push(s@[i as int]));
        i = i + 1;
    }
    assert(s@.subrange(0, n as int) == s@);
    v
}

/// Whether `c` is a parameter character of an escape sequence.
fn char_is_param(c: char) -> (b: bool)
    ensures
        b == is_ansi_param(c),
{
    (c as u32 >= '0' as u32 && c as u32 <= '9' as u32) || c == ';' || c == '?'
}

/// Whether `c` can end an escape sequence.
fn char_is_final(c: char) -> (b: bool)
    ensures
        b == is_ansi_final(c),
{
    (c as u32 >= 'A' as u32 && c as u32 <= 'Z' as u32) || (c as u32 >= 'a' as u32 && c as u32
        <= 'z' as u32)
}

/// The stripped form of the whole input.
fn strip_chars(v: &Vec<char>) -> (out: Vec<char>)
    ensures
        out@ == strip_ansi(v@),
{
    let n = v.len();
    let mut out: Vec<char> = Vec::new();
    let mut i: usize = 0;
    proof {
        assert(v@.subrange(0, n as int) == v@);
        assert(out@ + strip_ansi(v@) == strip_ansi(v@));
    }
    while i < n
        invariant
            i <= n,
            n == v@.len(),
            strip_ansi(v@) == out@ + strip_ansi(v@.subrange(i as int, n as int)),
        decreases n - i,
    {
        let ghost suffix = v@.subrange(i as int, n as int);
        let mut m: usize = 0;
        if i + 1 < n && v[i] == '\u{1b}' && v[i + 1] == '[' {
            let mut p = i + 2;
            while p < n && char_is_param(v[p])
                invariant
                    i + 2 <= p <= n,
                    n == v@.len(),
                    forall|k: int| i + 2 <= k < p ==> is_ansi_param(v@[k]),
                decreases n - p,
            {
                p = p + 1;
            }
            proof {
                lemma_param_run_end(suffix, 2);
                let q = param_run_end(suffix, 2);
                if q < p - i {
                    assert(!is_ansi_param(suffix[q]));
                    assert(suffix[q] == v@[i + q]);
                    assert(false);
                }
                if q > p - i {
                    assert(is_ansi_param(suffix[p - i]));
                    assert(suffix[p - i] == v@[p as int]);
                    assert(p < n);
                    assert(false);
                }
                assert(q == p - i);
            }
            if p < n && char_is_final(v[p]) {
                m = p + 1 - i;
                proof {
                    assert(suffix[0] == esc_char());
                    assert(suffix[1] == '[');
                    assert(is_ansi_final(suffix[p - i]));
                    assert(esc_match_len(suffix, 0) == m);
                }
            } else {
                proof {
                    assert(esc_match_len(suffix, 0) == 0);
                }
            }
        } else {
            proof {
                if i + 1 < n {
                    assert(suffix[0] == v@[i as int]);
                    assert(suffix[1] == v@[i + 1]);
                }
                assert(esc_match_len(suffix, 0) == 0);
            }
        }
        if m > 0 {
            proof {
                assert(2 < m <= suffix.len());
                assert(strip_ansi(suffix) == strip_ansi(suffix.subrange(m as int, suffix.len() as int)));
                assert(suffix.subrange(m as int, suffix.len() as int) == v@.subrange(
                    i + m as int,
                    n as int,
                ));
            }
            i = i + m;
        } else {
            let ghost out_pre = out@;
            out.push(v[i]);
            proof {
                assert(suffix[0] == v@[i as int]);
                assert(out@ =~= out_pre + seq![suffix[0]]);
                assert(esc_match_len(suffix, 0) == 0);
                assert(strip_ansi(suffix) == seq![suffix[0]] + strip_ansi(
                    suffix.subrange(1, suffix.len() as int),
                ));
                assert(suffix.subrange(1, suffix.len() as int) == v@.subrange(i + 1 as int, n as int));
                assert((out_pre + seq![suffix[0]]) + strip_ansi(v@.subrange(i + 1 as int, n as int))
                    =~= out_pre + (seq![suffix[0]] + strip_ansi(
                    v@.subrange(i + 1 as int, n as int),
                )));
                assert(strip_ansi(v@) == out@ + strip_ansi(v@.subrange(i + 1 as int, n as int)));
            }
            i = i + 1;
        }
    }
    proof {
        assert(v@.subrange(n as int, n as int) == Seq::<char>::empty());
        assert(out@ + strip_ansi(Seq::<char>::empty()) == out@);
    }
    out
}

/// Relies on `String: FromIterator<char>`: collecting characters yields the
/// string made of exactly those characters in order.
#[verifier::external_body]
pub(crate) fn chars_to_string(v: &Vec<char>) -> (s: String)
    ensures
        s@ == v@,
{
    v.iter().collect()
}

/// The input with every ANSI escape sequence removed: each leftmost run of
/// escape character, bracket, parameters and a final letter is deleted,
/// and everything else is kept in order.
pub fn strip_ansi_escapes(input: &str) -> (out: String)
    ensures
        out@ == strip_ansi(input@),
{
    let v = str_to_chars(input);
    let stripped = strip_chars(&v);
    chars_to_string(&stripped)
}

} // verus!
