//! Finding the readiness marker inside a cleaned line of server output.

use vstd::prelude::*;
use crate::ansi::str_to_chars;

verus! {

/// The needle `n` occurs in `h` starting at index `i`.
pub open spec fn is_match_at(h: Seq<char>, n: Seq<char>, i: int) -> bool {
    0 <= i && i + n.len() <= h.len() && h.subrange(i, i + n.len() as int) == n
}

/// The needle `n` occurs somewhere in `h`.
pub open spec fn contains_seq(h: Seq<char>, n: Seq<char>) -> bool {
    exists|i: int| is_match_at(h, n, i)
}

/// The line that announces that the background server is up.
pub open spec fn ready_marker() -> Seq<char> {
    "started sbt server"@
}

/// Whether `needle` occurs in `h` as a contiguous run of characters.
pub fn contains_str(h: &Vec<char>, needle: &str) -> (r: bool)
    ensures
        r == contains_seq(h@, needle@),
{
    let m = needle.unicode_len();
    let hl = h.len();
    if m == 0 {
        proof {
            assert(is_match_at(h@, needle@, 0)) by {
                assert(h@.subrange(0, 0) == needle@);
            }
        }
        return true;
    }
    if m > hl {
        proof {
            assert forall|i: int| !is_match_at(h@, needle@, i) by {}
        }
        return false;
    }
    let mut i: usize = 0;
    while i <= hl - m
        invariant
            hl == h@.len(),
            m == needle@.len(),
            0 < m <= hl,
            i <= hl - m + 1,
            forall|k: int| 0 <= k < i ==> !is_match_at(h@, needle@, k),
        decreases h@.len() - i,
    {
        let mut j: usize = 0;
        let mut hit = true;
        while j < m
            invariant
                hl == h@.len(),
                m == needle@.len(),
                0 < m <= hl,
                i + m <= hl,
                j <= m,
                hit ==> forall|k: int| 0 <= k < j ==> h@[i + k] == needle@[k],
                !hit ==> exists|k: int| 0 <= k < m && h@[i + k] != needle@[k],
            decreases m - j,
        {
            if h[i + j] != needle.get_char(j) {
                proof {
                    assert(h@[i + j] != needle@[j as int]);
                }
                hit = false;
                j = m;
            } else {
                proof {
                    assert(h@[i + j] == needle@[j as int]);
                }
                j = j + 1;
            }
        }
        if hit {
            proof {
                assert(h@.subrange(i as int, i + m as int) == needle@);
                assert(is_match_at(h@, needle@, i as int));
            }
            return true;
        }
        proof {
            assert(!is_match_at(h@, needle@, i as int)) by {
                if is_match_at(h@, needle@, i as int) {
                    let k = choose|k: int| 0 <= k < m && h@[i + k] != needle@[k];
                    assert(h@.subrange(i as int, i + m as int)[k] == needle@[k]);
                }
            }
        }
        i = i + 1;
    }
    proof {
        assert forall|k: int| !is_match_at(h@, needle@, k) by {
            if 0 <= k <= h@.len() - m {
            }
        }
    }
    false
}

/// Whether the readiness marker stands in the cleaned line `line`.
pub fn line_signals_ready(line: &str) -> (r: bool)
    ensures
        r == contains_seq(line@, ready_marker()),
{
    let v = str_to_chars(line);
    contains_str(&v, "started sbt server")
}

} // verus!
