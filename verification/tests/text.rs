use status_alert::text::{contains_substring, trim_text};

#[test]
fn substring_is_found_anywhere() {
    assert!(contains_substring("hello world", "hello"));
    assert!(contains_substring("hello world", "o w"));
    assert!(contains_substring("hello world", "world"));
    assert!(contains_substring("hello world", "hello world"));
}

#[test]
fn empty_needle_always_matches() {
    assert!(contains_substring("hello", ""));
    assert!(contains_substring("", ""));
}

#[test]
fn absent_needle_is_not_found() {
    assert!(!contains_substring("hello world", "worlds"));
    assert!(!contains_substring("hello", "hello world"));
    assert!(!contains_substring("", "a"));
    assert!(!contains_substring("abab", "abba"));
}

#[test]
fn matching_is_case_sensitive() {
    assert!(!contains_substring("Alexia server status is maintenance", "is Maintenance"));
    assert!(contains_substring("Alexia server status is Maintenance", "is Maintenance"));
}

#[test]
fn trim_removes_surrounding_whitespace_only() {
    assert_eq!(trim_text("  a b  "), "a b");
    assert_eq!(trim_text("\t0\r\n"), "0");
    assert_eq!(trim_text("none"), "none");
    assert_eq!(trim_text(""), "");
    assert_eq!(trim_text("   \n\t"), "");
}

#[test]
fn trim_knows_unicode_whitespace() {
    assert_eq!(trim_text("\u{3000}0\u{2028}"), "0");
    assert_eq!(trim_text("\u{a0}\u{2009}live\u{205f}"), "live");
}
