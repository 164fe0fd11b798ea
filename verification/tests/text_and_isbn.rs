use bookworm::isbn::normalize_isbn;
use bookworm::text::{decimal_text, replace_text, same_text, trim_text};

#[test]
fn trim_text_strips_spaces_and_tabs() {
    assert_eq!(trim_text("  Goodnight Moon  "), "Goodnight Moon");
    assert_eq!(trim_text("\t\nBrown Bear\r\n"), "Brown Bear");
    assert_eq!(trim_text("   "), "");
    assert_eq!(trim_text(""), "");
}

#[test]
fn trim_text_strips_unicode_white_space() {
    assert_eq!(trim_text("\u{3000}Moon\u{00A0}"), "Moon");
    assert_eq!(trim_text("a b"), "a b");
}

#[test]
fn trim_text_matches_str_trim() {
    for s in ["", " x ", "\u{2028}y\u{205F}", "\u{200B}z", "no-space", " \u{85}q\u{1680} "] {
        assert_eq!(trim_text(s), s.trim(), "input {s:?}");
    }
}

#[test]
fn decimal_text_prints_integers() {
    assert_eq!(decimal_text(0), "0");
    assert_eq!(decimal_text(1000), "1000");
    assert_eq!(decimal_text(-42), "-42");
    assert_eq!(decimal_text(i64::MAX), i64::MAX.to_string());
    assert_eq!(decimal_text(i64::MIN), i64::MIN.to_string());
}

#[test]
fn replace_text_replaces_every_occurrence() {
    assert_eq!(
        replace_text("http://books.google.com/x?u=http://y", "http://", "https://"),
        "https://books.google.com/x?u=https://y"
    );
    assert_eq!(replace_text("aaa", "aa", "b"), "ba");
    assert_eq!(replace_text("978-0-06", "-", ""), "978006");
    assert_eq!(replace_text("abc", "abcd", "x"), "abc");
}

#[test]
fn same_text_compares_characters() {
    assert!(same_text("reads", "reads"));
    assert!(!same_text("reads", "read"));
    assert!(!same_text("Reads", "reads"));
}

#[test]
fn isbn_lookup_rejects_invalid_isbn() {
    assert_eq!(normalize_isbn("abc"), None);
}

#[test]
fn isbn_lookup_rejects_wrong_length() {
    assert_eq!(normalize_isbn("12345"), None);
}

#[test]
fn normalize_isbn_accepts_thirteen_digits() {
    assert_eq!(normalize_isbn("9780064430173"), Some("9780064430173".to_string()));
}

#[test]
fn normalize_isbn_drops_dashes_and_outer_space() {
    assert_eq!(normalize_isbn("  978-0-06-443017-3 "), Some("9780064430173".to_string()));
    assert_eq!(normalize_isbn("0-06-443017-0"), Some("0064430170".to_string()));
}

#[test]
fn normalize_isbn_accepts_check_digit_x() {
    assert_eq!(normalize_isbn("123456789X"), Some("123456789X".to_string()));
    assert_eq!(normalize_isbn("123456789x"), None);
}

#[test]
fn normalize_isbn_rejects_inner_space_and_other_lengths() {
    assert_eq!(normalize_isbn("978 0064430173"), None);
    assert_eq!(normalize_isbn("97800644301"), None);
    assert_eq!(normalize_isbn("97800644301734"), None);
    assert_eq!(normalize_isbn("---"), None);
    assert_eq!(normalize_isbn("１２３４５６７８９０"), None);
}

#[test]
fn normalize_isbn_is_idempotent() {
    for raw in ["  978-0-06-443017-3 ", "123456789X", "0-06-443017-0"] {
        let once = normalize_isbn(raw).unwrap();
        assert_eq!(normalize_isbn(&once), Some(once.clone()));
    }
}
