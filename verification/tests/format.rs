use control_system::format::truncate_str;
use control_system::text::{decimal_string, same_text};

#[test]
fn test_truncate_str() {
    assert_eq!(truncate_str("hello", 10), "hello");
    assert_eq!(truncate_str("hello world", 8), "hello...");
    assert_eq!(truncate_str("hi", 2), "hi");
}

#[test]
fn truncate_str_with_little_room_has_no_dots() {
    assert_eq!(truncate_str("hello", 3), "hel");
    assert_eq!(truncate_str("hello", 1), "h");
    assert_eq!(truncate_str("hello", 0), "");
    assert_eq!(truncate_str("hello", 4), "h...");
    assert_eq!(truncate_str("hello", 5), "hello");
    assert_eq!(truncate_str("", 0), "");
}

#[test]
fn truncate_str_measures_bytes_and_cuts_characters() {
    // Four characters in eight bytes.
    assert_eq!(truncate_str("äöüß", 8), "äöüß");
    assert_eq!(truncate_str("äöüß", 7), "äöüß...");
    assert_eq!(truncate_str("äöüß", 5), "äö...");
    assert_eq!(truncate_str("äöüß", 3), "äöü");
}

#[test]
fn decimal_string_writes_numbers() {
    assert_eq!(decimal_string(0), "0");
    assert_eq!(decimal_string(7), "7");
    assert_eq!(decimal_string(10), "10");
    assert_eq!(decimal_string(1234567890), "1234567890");
    assert_eq!(decimal_string(u64::MAX), "18446744073709551615");
}

#[test]
fn same_text_compares_characters() {
    assert!(same_text("", ""));
    assert!(same_text("PushEvent", "PushEvent"));
    assert!(!same_text("PushEvent", "PushEvents"));
    assert!(!same_text("abc", "abd"));
    assert!(same_text("äö", "äö"));
}
