use ttn_ingest::text::{
    chars_of, contains, is_white_space, push_decimal, same_text, starts_with, trim,
};

#[test]
fn white_space_is_that_of_unicode() {
    for c in '\u{0}'..=char::MAX {
        assert_eq!(is_white_space(c), c.is_whitespace());
    }
}

#[test]
fn trimming_takes_white_space_from_both_ends() {
    for s in ["", " ", "a", " a", "a ", "\t a b \u{2003}\r\n", "\u{200b}x", "\u{a0}\u{e9}\u{a0}"] {
        assert_eq!(trim(s), s.trim());
    }
}

#[test]
fn numerals_are_decimal() {
    for n in [0u64, 9, 10, 99, 100, 1_234_567_890, u64::MAX] {
        let mut s = "n=".to_string();
        push_decimal(&mut s, n);
        assert_eq!(s, format!("n={}", n));
    }
}

#[test]
fn search_finds_what_is_there() {
    assert!(contains("", ""));
    assert!(contains("abc", ""));
    assert!(contains("abc", "abc"));
    assert!(contains("xxabc", "abc"));
    assert!(contains("abcxx", "abc"));
    assert!(contains("aaab", "aab"));
    assert!(!contains("ab", "abc"));
    assert!(!contains("axbxc", "abc"));
    assert!(contains("\u{e9}\u{1f600}z", "\u{1f600}"));
}

#[test]
fn prefixes_and_equality() {
    assert!(starts_with("data: x", "data:"));
    assert!(starts_with("data:", "data:"));
    assert!(starts_with("x", ""));
    assert!(!starts_with("data", "data:"));
    assert!(!starts_with("Data:", "data:"));
    assert!(same_text("\u{e9}", "\u{e9}"));
    assert!(!same_text("e", "\u{e9}"));
    assert_eq!(chars_of("a\u{1f600}"), vec!['a', '\u{1f600}']);
}
