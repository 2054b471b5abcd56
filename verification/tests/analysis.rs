use worker_rust::analysis::analyse_code;
use worker_rust::analysis::health_body;
use worker_rust::analysis::resolve_worker_id;

fn wid() -> String {
    "rust-worker-01".to_string()
}

#[test]
fn empty_input_has_no_issues() {
    let r = analyse_code("", wid());
    assert_eq!(r.issues, Vec::<String>::new());
    assert_eq!(r.review, "Rust worker checked code, no issues found.");
    assert_eq!(r.worker_id, "rust-worker-01");
    assert_eq!(r.model, "static-checker-rust-1.0");
}

#[test]
fn clean_input_has_no_issues() {
    let r = analyse_code("fn main() {}\nlet x = 1;\n// all fine here\n", wid());
    assert_eq!(r.issues, Vec::<String>::new());
    assert_eq!(r.review, "Rust worker checked code, no issues found.");
}

#[test]
fn todo_on_second_line() {
    let r = analyse_code("foo\n// TODO fix this\nbar", wid());
    assert_eq!(r.issues, vec!["TODO in line 2".to_string()]);
    assert_eq!(r.review, "Rust worker checked code, found 1 issue(s).");
}

#[test]
fn first_line_is_line_one() {
    let r = analyse_code("TODO: start here\nrest", wid());
    assert_eq!(r.issues, vec!["TODO in line 1".to_string()]);
}

#[test]
fn both_markers_give_two_entries() {
    let r = analyse_code("// TODO and FIXME in one place", wid());
    assert_eq!(
        r.issues,
        vec!["TODO in line 1".to_string(), "FIXME in line 1".to_string()]
    );
    assert_eq!(r.review, "Rust worker checked code, found 2 issue(s).");
}

#[test]
fn line_of_exactly_hundred_chars_is_fine() {
    let line = "a".repeat(100);
    let r = analyse_code(&line, wid());
    assert_eq!(r.issues, Vec::<String>::new());
}

#[test]
fn line_of_hundred_and_one_chars_is_flagged() {
    let line = "a".repeat(101);
    let r = analyse_code(&line, wid());
    assert_eq!(r.issues, vec!["Line 1 is too long (>101 chars)".to_string()]);
    assert_eq!(r.review, "Rust worker checked code, found 1 issue(s).");
}

#[test]
fn length_counts_characters_not_bytes() {
    // 60 two-byte characters: 120 bytes but only 60 characters, so no issue.
    let line = "\u{e9}".repeat(60);
    let r = analyse_code(&line, wid());
    assert_eq!(r.issues, Vec::<String>::new());
}

#[test]
fn issues_come_in_line_order_and_fixed_order_within_a_line() {
    let long_fixme = format!("// FIXME {}", "x".repeat(101));
    let len = long_fixme.chars().count();
    let code = format!("{}\nplain\nTODO here", long_fixme);
    let r = analyse_code(&code, wid());
    assert_eq!(
        r.issues,
        vec![
            "FIXME in line 1".to_string(),
            format!("Line 1 is too long (>{} chars)", len),
            "TODO in line 3".to_string(),
        ]
    );
    assert_eq!(r.review, "Rust worker checked code, found 3 issue(s).");
}

#[test]
fn all_three_findings_on_one_line() {
    let line = format!("// TODO FIXME {}", "y".repeat(101));
    let len = line.chars().count();
    let r = analyse_code(&line, wid());
    assert_eq!(
        r.issues,
        vec![
            "TODO in line 1".to_string(),
            "FIXME in line 1".to_string(),
            format!("Line 1 is too long (>{} chars)", len),
        ]
    );
}

#[test]
fn issue_count_is_sum_over_lines() {
    let code = "TODO a\nFIXME b\nclean\nTODO and FIXME c";
    let r = analyse_code(code, wid());
    assert_eq!(r.issues.len(), 4);
    assert_eq!(r.review, "Rust worker checked code, found 4 issue(s).");
}

#[test]
fn two_digit_line_numbers() {
    let code = "\n\n\n\n\n\n\n\n\n\n\nTODO late";
    let r = analyse_code(code, wid());
    assert_eq!(r.issues, vec!["TODO in line 12".to_string()]);
}

#[test]
fn trailing_newline_opens_no_extra_line() {
    let r = analyse_code("TODO\n", wid());
    assert_eq!(r.issues, vec!["TODO in line 1".to_string()]);
}

#[test]
fn carriage_return_before_newline_is_dropped() {
    // The first line is one hundred characters plus "\r\n": without the
    // carriage return dropped it would be flagged as too long.
    let code = format!("{}\r\nFIXME next", "b".repeat(100));
    let r = analyse_code(&code, wid());
    assert_eq!(r.issues, vec!["FIXME in line 2".to_string()]);
}

#[test]
fn same_input_twice_gives_identical_results() {
    let code = "foo\nTODO bar\nFIXME baz";
    let r1 = analyse_code(code, wid());
    let r2 = analyse_code(code, wid());
    assert_eq!(r1.review, r2.review);
    assert_eq!(r1.worker_id, r2.worker_id);
    assert_eq!(r1.model, r2.model);
    assert_eq!(r1.issues, r2.issues);
}

#[test]
fn worker_id_uses_configured_value() {
    let id = resolve_worker_id(Some("worker-7".to_string()));
    assert_eq!(id, "worker-7");
    let r = analyse_code("x", id);
    assert_eq!(r.worker_id, "worker-7");
}

#[test]
fn worker_id_defaults_when_unset() {
    let id = resolve_worker_id(None);
    assert_eq!(id, "rust-worker-01");
}

#[test]
fn health_body_is_fixed() {
    assert_eq!(health_body(), "{\"status\":\"ok\"}");
}
