use gal_runtime::diagnostic::{caret_line, error_window, rich_error};
use gal_runtime::script::{Loc, ParseError};

#[test]
fn caret_line_counts_display_columns() {
    // Two CJK characters before the error, each two columns wide.
    assert_eq!(caret_line("中文", "x"), "    ^");
    assert_eq!(caret_line("ab", "错误"), "  ^^^^");
    assert_eq!(caret_line("", ""), "");
}

#[test]
fn error_window_clamps_to_boundaries() {
    let text = "中a";
    // Byte 1 is inside the first character: the start goes down, the end up.
    assert_eq!(error_window(text, 1, 2), (0, 0, 3, 4));
    assert_eq!(error_window("abc", 5, 9), (0, 3, 3, 3));
}

#[test]
fn error_window_keeps_twenty_bytes_of_context() {
    let text = "a".repeat(50);
    assert_eq!(error_window(&text, 30, 31), (10, 30, 31, 50));
    assert_eq!(error_window(&text, 2, 3), (0, 2, 3, 23));
}

#[test]
fn rich_error_layout() {
    let e = ParseError { loc: Loc(2, 3), message: "unexpected".to_string() };
    let title = "Intro".to_string();
    let r = rich_error("ab$cd", &e, Some(&title), 0);
    assert_eq!(r, "Parse error on paragraph \"Intro\", act 1:\n    ab$cd\n      ^\nunexpected\n");
}

#[test]
fn rich_error_with_wide_characters() {
    let e = ParseError { loc: Loc(6, 9), message: "bad".to_string() };
    let r = rich_error("中文错", &e, None, 4);
    assert_eq!(r, "Parse error on paragraph \"\", act 5:\n    中文错\n        ^^\nbad\n");
}

#[test]
fn rich_error_escapes_title() {
    let e = ParseError { loc: Loc(0, 1), message: "m".to_string() };
    let title = "a\"b".to_string();
    let r = rich_error("x", &e, Some(&title), 0);
    assert!(r.starts_with("Parse error on paragraph \"a\\\"b\", act 1:"));
}
