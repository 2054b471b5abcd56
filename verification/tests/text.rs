use worker_rust::lines::split_lines;
use worker_rust::numbers::usize_to_string;
use worker_rust::scan::contains_pattern;

#[test]
fn split_empty_text_has_no_lines() {
    assert_eq!(split_lines(""), Vec::<String>::new());
}

#[test]
fn split_single_newline_gives_one_empty_line() {
    assert_eq!(split_lines("\n"), vec!["".to_string()]);
}

#[test]
fn split_keeps_unterminated_last_line() {
    assert_eq!(
        split_lines("foo\nbar"),
        vec!["foo".to_string(), "bar".to_string()]
    );
}

#[test]
fn split_drops_carriage_return_only_before_newline() {
    assert_eq!(
        split_lines("a\r\nb\rc\nd\r"),
        vec!["a".to_string(), "b\rc".to_string(), "d\r".to_string()]
    );
}

#[test]
fn contains_finds_marker_anywhere() {
    assert!(contains_pattern("a TODO b", "TODO"));
    assert!(contains_pattern("TODO", "TODO"));
    assert!(!contains_pattern("todo", "TODO"));
    assert!(!contains_pattern("TOD", "TODO"));
    assert!(!contains_pattern("", "FIXME"));
}

#[test]
fn numbers_render_in_decimal() {
    assert_eq!(usize_to_string(0), "0");
    assert_eq!(usize_to_string(7), "7");
    assert_eq!(usize_to_string(105), "105");
    assert_eq!(usize_to_string(1234), "1234");
}
