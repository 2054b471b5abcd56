//! Case-sensitive substring search, used for the fixed issue markers.

use vstd::prelude::*;

verus! {

/// `pat` occurs in `s` starting at index `i`.
pub open spec fn match_at(s: Seq<char>, pat: Seq<char>, i: int) -> bool {
    &&& 0 <= i
    &&& i + pat.len() <= s.len()
    &&& s.subrange(i, i + pat.len()) == pat
}

/// `pat` occurs somewhere in `s`: plain containment, not word-boundary
/// aware.
pub open spec fn seq_has(s: Seq<char>, pat: Seq<char>) -> bool {
    exists|i: int| match_at(s, pat, i)
}

/// Whether `pat` occurs in `line` starting at character index `i`.
fn check_match_at(line: &str, pat: &str, i: usize) -> (r: bool)
    requires
        i + pat@.len() <= line@.len(),
        line@.len() <= usize::MAX,
    ensures
        r == match_at(line@, pat@, i as int),
{
    let m = pat.unicode_len();
    let mut j: usize = 0;
    while j < m
        invariant
            i + m <= line@.len() <= usize::MAX,
            m == pat@.len(),
            j <= m,
            forall|k: int| 0 <= k < j ==> line@[i + k] == pat@[k],
        decreases m - j,
    {
        if line.get_char(i + j) != pat.get_char(j) {
            proof {
                if match_at(line@, pat@, i as int) {
                    assert(line@.subrange(i as int, i + m)[j as int] == pat@[j as int]);
                }
            }
            return false;
        }
        j += 1;
    }
    proof {
        assert(line@.subrange(i as int, i + m) =~= pat@);
    }
    true
}

/// Whether `line` contains `pat` as a substring.
pub fn contains_pattern(line: &str, pat: &str) -> (r: bool)
    ensures
        r == seq_has(line@, pat@),
{
    let n = line.unicode_len();
    let m = pat.unicode_len();
    if m > n {
        proof {
            assert(forall|k: int| !match_at(line@, pat@, k));
        }
        return false;
    }
    if m == 0 {
        proof {
            assert(line@.subrange(0, 0) =~= pat@);
            assert(match_at(line@, pat@, 0));
        }
        return true;
    }
    let mut i: usize = 0;
    while i <= n - m
        invariant
            1 <= m <= n,
            n == line@.len(),
            m == pat@.len(),
            i <= n - m + 1,
            forall|k: int| 0 <= k < i ==> !match_at(line@, pat@, k),
        decreases n + 1 - m - i,
    {
        if check_match_at(line, pat, i) {
            return true;
        }
        i += 1;
    }
    proof {
        assert(forall|k: int| !match_at(line@, pat@, k));
    }
    false
}

} // verus!
