//! Verified text utilities: substring matching and first-occurrence
//! replacement, used to substitute resolved settings into the
//! default-settings template.

use vstd::prelude::*;
use vstd::string::*;

verus! {

/// The pattern `p` occurs in `t` at position `i`.
pub open spec fn match_at(t: Seq<char>, p: Seq<char>, i: int) -> bool {
    0 <= i && i + p.len() <= t.len() && t.subrange(i, i + p.len()) == p
}

/// The first position at or after `i` where `p` occurs in `t`, if any.
pub open spec fn first_match_from(t: Seq<char>, p: Seq<char>, i: int) -> Option<int>
    decreases t.len() - i + 1,
{
    if i < 0 || i + p.len() > t.len() {
        None
    } else if t.subrange(i, i + p.len()) == p {
        Some(i)
    } else {
        first_match_from(t, p, i + 1)
    }
}

/// `t` with the first occurrence of `p` replaced by `rep`; `t` unchanged
/// when `p` does not occur.
pub open spec fn replace_first_spec(t: Seq<char>, p: Seq<char>, rep: Seq<char>) -> Seq<char> {
    match first_match_from(t, p, 0) {
        Some(i) => t.subrange(0, i) + rep + t.subrange(i + p.len(), t.len() as int),
        None => t,
    }
}

/// `s` wrapped in double quotes.
pub open spec fn quoted_spec(s: Seq<char>) -> Seq<char> {
    "\""@ + s + "\""@
}

/// Wraps a string in double quotes.
pub fn quoted(s: &str) -> (r: String)
    ensures
        r@ == quoted_spec(s@),
{
    "\"".to_owned().concat(s).concat("\"")
}

/// Whether `pattern` occurs in `text` at character position `i`.
fn occurs_at(text: &str, pattern: &str, i: usize, n: usize, m: usize) -> (r: bool)
    requires
        n == text@.len(),
        m == pattern@.len(),
        i + m <= n,
    ensures
        r == match_at(text@, pattern@, i as int),
{
    let mut j: usize = 0;
    while j < m
        invariant
            n == text@.len(),
            m == pattern@.len(),
            i + m <= n,
            j <= m,
            forall|k: int| 0 <= k < j ==> text@[i + k] == pattern@[k],
        decreases m - j,
    {
        if text.get_char(i + j) != pattern.get_char(j) {
            proof {
                assert(text@.subrange(i as int, i + m) != pattern@) by {
                    assert(text@.subrange(i as int, i + m)[j as int] == text@[i + j]);
                }
            }
            return false;
        }
        j += 1;
    }
    proof {
        assert(text@.subrange(i as int, i + m) =~= pattern@);
    }
    true
}

/// Replaces the first occurrence of `pattern` in `text` with `replacement`;
/// returns `text` unchanged when `pattern` does not occur.
pub fn replace_first(text: &str, pattern: &str, replacement: &str) -> (r: String)
    ensures
        r@ == replace_first_spec(text@, pattern@, replacement@),
{
    let n: usize = text.unicode_len();
    let m: usize = pattern.unicode_len();
    if m > n {
        proof {
            assert(first_match_from(text@, pattern@, 0) is None);
        }
        return text.to_owned();
    }
    if m == 0 {
        proof {
            assert(text@.subrange(0, 0) =~= pattern@);
            assert(first_match_from(text@, pattern@, 0) == Some(0int));
        }
        let mut out = replacement.to_owned();
        out.append(text);
        proof {
            assert(out@ =~= replace_first_spec(text@, pattern@, replacement@));
        }
        return out;
    }
    let mut i: usize = 0;
    while i <= n - m
        invariant
            n == text@.len(),
            m == pattern@.len(),
            1 <= m <= n,
            i <= n - m + 1,
            first_match_from(text@, pattern@, 0) == first_match_from(text@, pattern@, i as int),
        decreases n - m - i + 1,
    {
        if occurs_at(text, pattern, i, n, m) {
            proof {
                assert(first_match_from(text@, pattern@, i as int) == Some(i as int));
            }
            let mut out = text.substring_char(0, i).to_owned();
            out.append(replacement);
            out.append(text.substring_char(i + m, n));
            proof {
                assert(out@ == replace_first_spec(text@, pattern@, replacement@));
            }
            return out;
        }
        proof {
            assert(first_match_from(text@, pattern@, i as int)
                == first_match_from(text@, pattern@, i + 1));
        }
        i += 1;
    }
    proof {
        assert(first_match_from(text@, pattern@, i as int) is None);
    }
    text.to_owned()
}

} // verus!
