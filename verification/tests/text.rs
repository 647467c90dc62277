use ticket_backend::text::{decimal_text, escape_like, same_text, search_pattern};

#[test]
fn decimal_numerals() {
    assert_eq!(decimal_text(0), "0");
    assert_eq!(decimal_text(7), "7");
    assert_eq!(decimal_text(10), "10");
    assert_eq!(decimal_text(905), "905");
    assert_eq!(decimal_text(18446744073709551616), "18446744073709551616");
}

#[test]
fn pattern_characters_are_escaped() {
    assert_eq!(escape_like("plain"), "plain");
    assert_eq!(escape_like("50%"), "50\\%");
    assert_eq!(escape_like("a_b"), "a\\_b");
    assert_eq!(escape_like("c:\\dir"), "c:\\\\dir");
    assert_eq!(escape_like(""), "");
    assert_eq!(escape_like("标签%"), "标签\\%");
}

#[test]
fn search_pattern_trims_and_wraps() {
    assert_eq!(search_pattern("bug"), "%bug%");
    assert_eq!(search_pattern("  bug \t\n"), "%bug%");
    assert_eq!(search_pattern("two words"), "%two words%");
    assert_eq!(search_pattern("\u{3000}宽\u{a0}"), "%宽%");
    assert_eq!(search_pattern("   "), "%%");
    assert_eq!(search_pattern(" 100%_ "), "%100\\%\\_%");
}

#[test]
fn texts_compare_by_content() {
    assert!(same_text("open", "open"));
    assert!(!same_text("open", "Open"));
    assert!(!same_text("open", "opened"));
    assert!(same_text("", ""));
}
