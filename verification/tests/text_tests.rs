use cot_proto::text::{chars_of, contains, same_text};

#[test]
fn substrings_are_found_anywhere() {
    assert!(contains("abc", "abc"));
    assert!(contains("abc", "a"));
    assert!(contains("abc", "bc"));
    assert!(contains("abc", "c"));
    assert!(contains("aab", "ab"));
    assert!(!contains("abc", "ac"));
    assert!(!contains("abc", "abcd"));
    assert!(!contains("", "a"));
}

#[test]
fn the_empty_text_is_everywhere() {
    assert!(contains("abc", ""));
    assert!(contains("", ""));
}

#[test]
fn characters_not_bytes_are_compared() {
    assert!(contains("grüße", "üß"));
    assert!(!contains("grüße", "us"));
    assert_eq!(chars_of("aß”"), vec!['a', 'ß', '”']);
    assert_eq!(chars_of(""), Vec::<char>::new());
}

#[test]
fn same_text_is_equality() {
    assert!(same_text("detail", "detail"));
    assert!(!same_text("detail", "details"));
    assert!(!same_text("detail", "detaim"));
    assert!(same_text("", ""));
}
