//! The request handler's logic: scanning lines for markers and overlong
//! lines, and assembling the analysis result.

use vstd::prelude::*;

use crate::lines::spec_lines;
use crate::lines::split_lines;
use crate::numbers::dec_rep;
use crate::numbers::usize_to_string;
use crate::scan::contains_pattern;
use crate::scan::seq_has;

verus! {

/// Lines longer than this many characters are flagged.
pub const LINE_LENGTH_LIMIT: usize = 100;

/// The first marker searched for in every line.
pub open spec fn todo_marker() -> Seq<char> {
    "TODO"@
}

/// The second marker searched for in every line.
pub open spec fn fixme_marker() -> Seq<char> {
    "FIXME"@
}

/// The worker identifier used when none is configured.
pub open spec fn default_worker_id() -> Seq<char> {
    "rust-worker-01"@
}

/// The fixed model name carried in every result.
pub open spec fn model_name() -> Seq<char> {
    "static-checker-rust-1.0"@
}

/// Whether a line exceeds the length limit.
pub open spec fn line_is_long(line: Seq<char>) -> bool {
    line.len() > LINE_LENGTH_LIMIT
}

/// The issue text for a `TODO` marker on line `n`.
pub open spec fn todo_issue(n: nat) -> Seq<char> {
    "TODO in line "@ + dec_rep(n)
}

/// The issue text for a `FIXME` marker on line `n`.
pub open spec fn fixme_issue(n: nat) -> Seq<char> {
    "FIXME in line "@ + dec_rep(n)
}

/// The issue text for line `n` being `len` characters long.
pub open spec fn long_issue(n: nat, len: nat) -> Seq<char> {
    "Line "@ + dec_rep(n) + " is too long (>"@ + dec_rep(len) + " chars)"@
}

/// The issues of one line, numbered `n`: a `TODO` finding, then a
/// `FIXME` finding, then a length finding, each only when its test
/// holds.
pub open spec fn line_issues(line: Seq<char>, n: nat) -> Seq<Seq<char>> {
    (if seq_has(line, todo_marker()) {
        seq![todo_issue(n)]
    } else {
        Seq::<Seq<char>>::empty()
    }) + (if seq_has(line, fixme_marker()) {
        seq![fixme_issue(n)]
    } else {
        Seq::<Seq<char>>::empty()
    }) + (if line_is_long(line) {
        seq![long_issue(n, line.len())]
    } else {
        Seq::<Seq<char>>::empty()
    })
}

/// The issues of a run of lines, the first of which is numbered `n`,
/// in line order.
pub open spec fn issues_from(lines: Seq<Seq<char>>, n: nat) -> Seq<Seq<char>>
    decreases lines.len(),
{
    if lines.len() == 0 {
        Seq::empty()
    } else {
        line_issues(lines.first(), n) + issues_from(lines.drop_first(), n + 1)
    }
}

/// All issues of the submitted text, with 1-based line numbers.
pub open spec fn spec_issues(code: Seq<char>) -> Seq<Seq<char>> {
    issues_from(spec_lines(code), 1)
}

/// The summary for the submitted text: a fixed message when nothing was
/// found, otherwise one embedding the issue count.
pub open spec fn spec_review(code: Seq<char>) -> Seq<char> {
    if spec_issues(code).len() == 0 {
        "Rust worker checked code, no issues found."@
    } else {
        "Rust worker checked code, found "@ + dec_rep(spec_issues(code).len()) + " issue(s)."@
    }
}

/// The worker identifier: the configured one when present, otherwise
/// the default.
pub open spec fn spec_worker_id(configured: Option<Seq<char>>) -> Seq<char> {
    match configured {
        Some(s) => s,
        None => default_worker_id(),
    }
}

/// What one analysis returns: the summary, the worker identifier, the
/// model name, and the ordered findings.
pub struct AnalysisResult {
    pub review: String,
    pub worker_id: String,
    pub model: String,
    pub issues: Vec<String>,
}

/// `r` is the one result that analysing `code` under `worker_id` may
/// produce.
pub open spec fn result_matches(r: AnalysisResult, code: Seq<char>, worker_id: Seq<char>) -> bool {
    &&& r.review@ == spec_review(code)
    &&& r.worker_id@ == worker_id
    &&& r.model@ == model_name()
    &&& r.issues.deep_view() == spec_issues(code)
}

/// Builds the `TODO` issue text for line `n`.
fn todo_issue_string(n: usize) -> (r: String)
    ensures
        r@ == todo_issue(n as nat),
{
    let mut s = String::from_str("TODO in line ");
    let num = usize_to_string(n);
    s.append(num.as_str());
    s
}

/// Builds the `FIXME` issue text for line `n`.
fn fixme_issue_string(n: usize) -> (r: String)
    ensures
        r@ == fixme_issue(n as nat),
{
    let mut s = String::from_str("FIXME in line ");
    let num = usize_to_string(n);
    s.append(num.as_str());
    s
}

/// Builds the length issue text for line `n` of `len` characters.
fn long_issue_string(n: usize, len: usize) -> (r: String)
    ensures
        r@ == long_issue(n as nat, len as nat),
{
    let mut s = String::from_str("Line ");
    let num = usize_to_string(n);
    s.append(num.as_str());
    s.append(" is too long (>");
    let count = usize_to_string(len);
    s.append(count.as_str());
    s.append(" chars)");
    s
}

/// Appends the issues of one line, numbered `n`, to `issues`.
fn push_line_issues(issues: &mut Vec<String>, line: &str, n: usize)
    ensures
        final(issues).deep_view() == old(issues).deep_view() + line_issues(line@, n as nat),
{
    let ghost pre = issues.deep_view();
    let ghost part1: Seq<Seq<char>> = if seq_has(line@, todo_marker()) {
        seq![todo_issue(n as nat)]
    } else {
        Seq::<Seq<char>>::empty()
    };
    let ghost part2: Seq<Seq<char>> = if seq_has(line@, fixme_marker()) {
        seq![fixme_issue(n as nat)]
    } else {
        Seq::<Seq<char>>::empty()
    };
    let ghost part3: Seq<Seq<char>> = if line_is_long(line@) {
        seq![long_issue(n as nat, line@.len())]
    } else {
        Seq::<Seq<char>>::empty()
    };
    if contains_pattern(line, "TODO") {
        let entry = todo_issue_string(n);
        issues.push(entry);
    }
    proof {
        assert(issues.deep_view() =~= pre + part1);
    }
    let ghost mid1 = issues.deep_view();
    if contains_pattern(line, "FIXME") {
        let entry = fixme_issue_string(n);
        issues.push(entry);
    }
    proof {
        assert(issues.deep_view() =~= mid1 + part2);
    }
    let ghost mid2 = issues.deep_view();
    let len = line.unicode_len();
    if len > LINE_LENGTH_LIMIT {
        let entry = long_issue_string(n, len);
        issues.push(entry);
    }
    proof {
        assert(issues.deep_view() =~= mid2 + part3);
        assert(issues.deep_view() =~= pre + (part1 + part2 + part3));
        assert(line_issues(line@, n as nat) == part1 + part2 + part3);
    }
}

/// Builds the summary for `count` found issues.
fn build_review(count: usize) -> (r: String)
    ensures
        count == 0 ==> r@ == "Rust worker checked code, no issues found."@,
        count > 0 ==> r@ == "Rust worker checked code, found "@ + dec_rep(count as nat)
            + " issue(s)."@,
{
    if count == 0 {
        String::from_str("Rust worker checked code, no issues found.")
    } else {
        let mut s = String::from_str("Rust worker checked code, found ");
        let num = usize_to_string(count);
        s.append(num.as_str());
        s.append(" issue(s).");
        s
    }
}

/// Analyses the submitted text: scans every line for the two markers
/// and the length limit, and assembles the findings, the summary, and
/// the identifiers into one result.
pub fn analyse_code(code: &str, worker_id: String) -> (r: AnalysisResult)
    ensures
        result_matches(r, code@, worker_id@),
{
    let lines = split_lines(code);
    let ghost lv = lines.deep_view();
    let mut issues: Vec<String> = Vec::new();
    let mut idx: usize = 0;
    proof {
        assert(lv.skip(0) =~= lv);
        assert(issues.deep_view() =~= Seq::<Seq<char>>::empty());
        assert(issues.deep_view() + issues_from(lv.skip(0), 1) =~= spec_issues(code@));
    }
    while idx < lines.len()
        invariant
            idx <= lines.len(),
            lv == lines.deep_view(),
            lines@.len() == lv.len(),
            spec_issues(code@) == issues.deep_view() + issues_from(
                lv.skip(idx as int),
                idx as nat + 1,
            ),
        decreases lines.len() - idx,
    {
        let line: &String = &lines[idx];
        let ghost pre = issues.deep_view();
        proof {
            assert(line@ == lv[idx as int]);
        }
        push_line_issues(&mut issues, line.as_str(), idx + 1);
        proof {
            let rest = lv.skip(idx as int);
            assert(rest.first() == lv[idx as int]);
            assert(rest.drop_first() =~= lv.skip(idx as int + 1));
            assert(issues.deep_view() + issues_from(lv.skip(idx as int + 1), idx as nat + 2) =~= (
            pre + issues_from(lv.skip(idx as int), idx as nat + 1)));
        }
        idx += 1;
    }
    proof {
        assert(lv.skip(lv.len() as int) =~= Seq::<Seq<char>>::empty());
        assert(issues.deep_view() + issues_from(lv.skip(lv.len() as int), lv.len() + 1)
            =~= issues.deep_view());
        assert(spec_issues(code@).len() == issues.deep_view().len());
        assert(issues.deep_view().len() == issues@.len());
    }
    let review = build_review(issues.len());
    let model = String::from_str("static-checker-rust-1.0");
    AnalysisResult { review, worker_id, model, issues }
}

/// Picks the worker identifier: the configured value when one is set,
/// otherwise the default literal.
pub fn resolve_worker_id(configured: Option<String>) -> (r: String)
    ensures
        r@ == spec_worker_id(configured.deep_view()),
{
    match configured {
        Some(s) => s,
        None => String::from_str("rust-worker-01"),
    }
}

/// The fixed body of the health endpoint.
pub fn health_body() -> (r: String)
    ensures
        r@ == "{\"status\":\"ok\"}"@,
{
    String::from_str("{\"status\":\"ok\"}")
}

} // verus!
