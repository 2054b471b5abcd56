//! Splitting the submitted text into lines.
//!
//! A line ends at a newline character; a carriage return directly before
//! that newline is not part of the line.  A trailing newline closes the
//! last line rather than opening an empty one, so the empty text has no
//! lines at all.

use vstd::prelude::*;

verus! {

/// Index of the first newline in `s`, or `s.len()` if there is none.
pub open spec fn first_nl(s: Seq<char>) -> int
    decreases s.len(),
{
    if s.len() == 0 {
        0
    } else if s[0] == '\n' {
        0
    } else {
        1 + first_nl(s.subrange(1, s.len() as int))
    }
}

/// `first_nl` is the position of the first newline: nothing before `k`
/// is a newline, and `k` itself is one unless it is the end of `s`.
proof fn lemma_first_nl_at(s: Seq<char>, k: int)
    requires
        0 <= k <= s.len(),
        forall|j: int| 0 <= j < k ==> s[j] != '\n',
        k < s.len() ==> s[k] == '\n',
    ensures
        first_nl(s) == k,
    decreases s.len(),
{
    if s.len() == 0 {
    } else if s[0] == '\n' {
        assert(k == 0);
    } else {
        assert(k >= 1);
        let t = s.subrange(1, s.len() as int);
        assert(forall|j: int| 0 <= j < k - 1 ==> t[j] == s[j + 1] && t[j] != '\n');
        assert(k - 1 < t.len() ==> t[k - 1] == s[k]);
        lemma_first_nl_at(t, k - 1);
    }
}

/// `line` without a single trailing carriage return, if it has one.
pub open spec fn strip_cr(line: Seq<char>) -> Seq<char> {
    if line.len() > 0 && line[line.len() - 1] == '\r' {
        line.take(line.len() - 1)
    } else {
        line
    }
}

/// The lines of `s`, split at each newline.  A carriage return directly
/// before a newline is dropped; the segment after the last newline forms
/// a final line only when it is nonempty.
pub open spec fn spec_lines(s: Seq<char>) -> Seq<Seq<char>>
    decreases s.len(),
{
    if s.len() == 0 {
        Seq::empty()
    } else {
        let i = first_nl(s);
        if 0 <= i < s.len() {
            seq![strip_cr(s.subrange(0, i))] + spec_lines(s.subrange(i + 1, s.len() as int))
        } else {
            seq![s]
        }
    }
}

/// Unfolds `spec_lines` on the suffix of `s` from `start`, when the
/// first newline at or after `start` sits at `i`.
proof fn lemma_lines_step(s: Seq<char>, start: int, i: int, n: int)
    requires
        0 <= start <= i < n == s.len(),
        forall|j: int| start <= j < i ==> s[j] != '\n',
        s[i] == '\n',
    ensures
        spec_lines(s.subrange(start, n)) == seq![strip_cr(s.subrange(start, i))] + spec_lines(
            s.subrange(i + 1, n),
        ),
{
    let t = s.subrange(start, n);
    assert(forall|j: int| 0 <= j < i - start ==> t[j] == s[j + start] && t[j] != '\n');
    assert(t[i - start] == '\n');
    lemma_first_nl_at(t, i - start);
    assert(t.subrange(0, i - start) =~= s.subrange(start, i));
    assert(t.subrange(i - start + 1, t.len() as int) =~= s.subrange(i + 1, n));
}

/// Unfolds `spec_lines` on the suffix of `s` from `start`, when no
/// newline follows `start`.
proof fn lemma_lines_last(s: Seq<char>, start: int, n: int)
    requires
        0 <= start <= n == s.len(),
        forall|j: int| start <= j < n ==> s[j] != '\n',
    ensures
        start == n ==> spec_lines(s.subrange(start, n)) == Seq::<Seq<char>>::empty(),
        start < n ==> spec_lines(s.subrange(start, n)) == seq![s.subrange(start, n)],
{
    let t = s.subrange(start, n);
    if start == n {
        assert(t.len() == 0);
    } else {
        assert(forall|j: int| 0 <= j < t.len() ==> t[j] == s[j + start] && t[j] != '\n');
        lemma_first_nl_at(t, t.len() as int);
    }
}

/// One line of `code`: the characters from `start` up to the newline at
/// `end`, with a carriage return at its very end dropped.
fn extract_line(code: &str, start: usize, end: usize) -> (r: String)
    requires
        start <= end <= code@.len() <= usize::MAX,
    ensures
        r@ == strip_cr(code@.subrange(start as int, end as int)),
{
    let stop = if end > start && code.get_char(end - 1) == '\r' {
        end - 1
    } else {
        end
    };
    proof {
        let t = code@.subrange(start as int, end as int);
        if end > start && code@[end - 1] == '\r' {
            assert(t[t.len() - 1] == '\r');
            assert(t.take(t.len() - 1) =~= code@.subrange(start as int, end - 1));
        }
    }
    let line = code.substring_char(start, stop);
    line.to_owned()
}

/// Splits `code` into its lines, exactly as `spec_lines` describes them.
pub fn split_lines(code: &str) -> (r: Vec<String>)
    ensures
        r.deep_view() == spec_lines(code@),
{
    let n = code.unicode_len();
    let mut lines: Vec<String> = Vec::new();
    let mut start: usize = 0;
    let mut i: usize = 0;
    proof {
        assert(code@.subrange(0, n as int) =~= code@);
        assert(lines.deep_view() =~= Seq::<Seq<char>>::empty());
    }
    while i < n
        invariant
            start <= i <= n,
            n == code@.len(),
            forall|j: int| start <= j < i ==> code@[j] != '\n',
            spec_lines(code@) == lines.deep_view() + spec_lines(
                code@.subrange(start as int, n as int),
            ),
        decreases n - i,
    {
        if code.get_char(i) == '\n' {
            let line = extract_line(code, start, i);
            let ghost pre = lines.deep_view();
            lines.push(line);
            proof {
                assert(lines.deep_view() =~= pre.push(line@));
                lemma_lines_step(code@, start as int, i as int, n as int);
                assert(pre.push(line@) + spec_lines(code@.subrange(i + 1, n as int)) =~= pre
                    + spec_lines(code@.subrange(start as int, n as int)));
            }
            start = i + 1;
        }
        i += 1;
    }
    proof {
        lemma_lines_last(code@, start as int, n as int);
    }
    if start < n {
        let last = code.substring_char(start, n).to_owned();
        let ghost pre = lines.deep_view();
        lines.push(last);
        proof {
            assert(lines.deep_view() =~= pre.push(last@));
            assert(pre.push(last@) =~= pre + seq![code@.subrange(start as int, n as int)]);
        }
    } else {
        proof {
            assert(lines.deep_view() + Seq::<Seq<char>>::empty() =~= lines.deep_view());
        }
    }
    lines
}

} // verus!
