//! Properties of the analysis, stated and proved once and for all
//! inputs.

use vstd::prelude::*;

use crate::analysis::fixme_issue;
use crate::analysis::fixme_marker;
use crate::analysis::line_is_long;
use crate::analysis::line_issues;
use crate::analysis::long_issue;
use crate::analysis::issues_from;
use crate::analysis::result_matches;
use crate::analysis::spec_issues;
use crate::analysis::spec_review;
use crate::analysis::todo_issue;
use crate::analysis::todo_marker;
use crate::analysis::AnalysisResult;
use crate::lines::spec_lines;
use crate::scan::seq_has;

verus! {

/// A line that triggers none of the three tests.
pub open spec fn line_clean(line: Seq<char>) -> bool {
    &&& !seq_has(line, todo_marker())
    &&& !seq_has(line, fixme_marker())
    &&& !line_is_long(line)
}

/// How many of the three tests a line triggers.
pub open spec fn line_issue_count(line: Seq<char>) -> nat {
    (if seq_has(line, todo_marker()) {
        1nat
    } else {
        0nat
    }) + (if seq_has(line, fixme_marker()) {
        1nat
    } else {
        0nat
    }) + (if line_is_long(line) {
        1nat
    } else {
        0nat
    })
}

/// The total count of triggered tests over a run of lines.
pub open spec fn total_issue_count(lines: Seq<Seq<char>>) -> nat
    decreases lines.len(),
{
    if lines.len() == 0 {
        0nat
    } else {
        line_issue_count(lines.first()) + total_issue_count(lines.drop_first())
    }
}

proof fn lemma_issues_from_len(lines: Seq<Seq<char>>, n: nat)
    ensures
        issues_from(lines, n).len() == total_issue_count(lines),
    decreases lines.len(),
{
    if lines.len() > 0 {
        lemma_issues_from_len(lines.drop_first(), n + 1);
    }
}

/// The number of issues equals the number of marker matches plus length
/// violations across all lines.
pub proof fn lemma_issue_count(code: Seq<char>)
    ensures
        spec_issues(code).len() == total_issue_count(spec_lines(code)),
{
    lemma_issues_from_len(spec_lines(code), 1);
}

proof fn lemma_issues_from_clean(lines: Seq<Seq<char>>, n: nat)
    requires
        forall|j: int| 0 <= j < lines.len() ==> line_clean(#[trigger] lines[j]),
    ensures
        issues_from(lines, n) == Seq::<Seq<char>>::empty(),
    decreases lines.len(),
{
    if lines.len() > 0 {
        let rest = lines.drop_first();
        assert(forall|j: int| 0 <= j < rest.len() ==> #[trigger] rest[j] == lines[j + 1]);
        lemma_issues_from_clean(rest, n + 1);
        assert(line_clean(lines[0]));
        assert(line_issues(lines.first(), n) =~= Seq::<Seq<char>>::empty());
        assert(issues_from(lines, n) =~= Seq::<Seq<char>>::empty());
    }
}

/// When no line holds a marker and none is overlong, there are no
/// issues and the review is the fixed no-issues message.
pub proof fn lemma_clean_code(code: Seq<char>)
    requires
        forall|j: int|
            0 <= j < spec_lines(code).len() ==> line_clean(#[trigger] spec_lines(code)[j]),
    ensures
        spec_issues(code) == Seq::<Seq<char>>::empty(),
        spec_review(code) == "Rust worker checked code, no issues found."@,
{
    lemma_issues_from_clean(spec_lines(code), 1);
}

/// The issues come in line order: those of the lines before `j` first,
/// then the issues of line `j` itself, then those of the lines after
/// it.  Within one line the order is `TODO`, `FIXME`, length, as
/// `line_issues` states.
pub proof fn lemma_issues_grouped(lines: Seq<Seq<char>>, n: nat, j: nat)
    requires
        j < lines.len(),
    ensures
        issues_from(lines, n) == issues_from(lines.take(j as int), n) + line_issues(
            lines[j as int],
            n + j,
        ) + issues_from(lines.skip(j as int + 1), n + j + 1),
    decreases j,
{
    if j == 0 {
        assert(issues_from(lines.take(0), n) =~= Seq::<Seq<char>>::empty());
        assert(lines.drop_first() =~= lines.skip(1));
        assert(issues_from(lines, n) =~= issues_from(lines.take(0), n) + line_issues(
            lines[0],
            n,
        ) + issues_from(lines.skip(1), n + 1));
    } else {
        let rest = lines.drop_first();
        lemma_issues_grouped(rest, n + 1, (j - 1) as nat);
        assert(rest.take(j as int - 1) =~= lines.take(j as int).drop_first());
        assert(rest.skip(j as int) =~= lines.skip(j as int + 1));
        assert(rest[j as int - 1] == lines[j as int]);
        assert(lines.take(j as int).first() == lines.first());
        assert(issues_from(lines.take(j as int), n) == line_issues(lines.first(), n)
            + issues_from(rest.take(j as int - 1), n + 1));
        assert(issues_from(lines, n) =~= issues_from(lines.take(j as int), n) + line_issues(
            lines[j as int],
            n + j,
        ) + issues_from(lines.skip(j as int + 1), n + j + 1));
    }
}

/// Line numbering is 1-based: a `TODO` on the first line is reported as
/// the first issue, for line 1.
pub proof fn lemma_first_line_is_line_one(code: Seq<char>)
    requires
        spec_lines(code).len() > 0,
        seq_has(spec_lines(code)[0], todo_marker()),
    ensures
        spec_issues(code).len() > 0,
        spec_issues(code)[0] == todo_issue(1),
        spec_issues(code)[0] == "TODO in line 1"@,
{
    let lines = spec_lines(code);
    assert(line_issues(lines.first(), 1)[0] == todo_issue(1));
    assert(spec_issues(code)[0] == todo_issue(1));
    reveal_strlit("TODO in line ");
    reveal_strlit("TODO in line 1");
    assert(todo_issue(1) =~= "TODO in line 1"@);
}

/// A line holding both markers yields two distinct issue entries, the
/// `TODO` one directly before the `FIXME` one.
pub proof fn lemma_both_markers(line: Seq<char>, n: nat)
    requires
        seq_has(line, todo_marker()),
        seq_has(line, fixme_marker()),
    ensures
        line_issues(line, n).len() >= 2,
        line_issues(line, n)[0] == todo_issue(n),
        line_issues(line, n)[1] == fixme_issue(n),
        todo_issue(n) != fixme_issue(n),
{
    reveal_strlit("TODO in line ");
    reveal_strlit("FIXME in line ");
    assert(todo_issue(n)[0] == 'T');
    assert(fixme_issue(n)[0] == 'F');
}

/// A line of at most a hundred characters yields no length issue; a
/// longer one always does, as the last of the line's issues.
pub proof fn lemma_length_boundary(line: Seq<char>, n: nat)
    ensures
        line.len() <= 100 ==> !line_issues(line, n).contains(long_issue(n, line.len())),
        line.len() > 100 ==> line_issues(line, n).contains(long_issue(n, line.len())),
        line.len() > 100 ==> line_issues(line, n).last() == long_issue(n, line.len()),
{
    let s = line_issues(line, n);
    if line.len() > 100 {
        assert(s[s.len() - 1] == long_issue(n, line.len()));
        assert(s.contains(long_issue(n, line.len())));
    } else {
        reveal_strlit("Line ");
        reveal_strlit("TODO in line ");
        reveal_strlit("FIXME in line ");
        assert(long_issue(n, line.len())[0] == 'L');
        assert(todo_issue(n)[0] == 'T');
        assert(fixme_issue(n)[0] == 'F');
        assert forall|k: int| 0 <= k < s.len() implies s[k] != long_issue(n, line.len()) by {
            assert(s[k] == todo_issue(n) || s[k] == fixme_issue(n));
        }
    }
}

/// The analysis is a pure function of the submitted code and the worker
/// identifier: two results for the same input are identical.
pub proof fn lemma_analysis_deterministic(
    r1: AnalysisResult,
    r2: AnalysisResult,
    code: Seq<char>,
    worker_id: Seq<char>,
)
    requires
        result_matches(r1, code, worker_id),
        result_matches(r2, code, worker_id),
    ensures
        r1.review@ == r2.review@,
        r1.worker_id@ == r2.worker_id@,
        r1.model@ == r2.model@,
        r1.issues.deep_view() == r2.issues.deep_view(),
{
}

} // verus!
