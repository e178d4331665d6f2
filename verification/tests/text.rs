use cw_orch_daemon::text::{
    contains_bytes, contains_text, find_from, matches_at, parse_decimal, same_bytes, same_text,
};

#[test]
fn finds_first_occurrence() {
    assert_eq!(find_from(b"abcabc", b"bc", 0), Some(1));
    assert_eq!(find_from(b"abcabc", b"bc", 2), Some(4));
    assert_eq!(find_from(b"abcabc", b"bc", 5), None);
    assert_eq!(find_from(b"abcabc", b"abcabc", 0), Some(0));
    assert_eq!(find_from(b"abcabc", b"abcabcd", 0), None);
}

#[test]
fn empty_needle_stands_everywhere() {
    assert_eq!(find_from(b"abc", b"", 0), Some(0));
    assert_eq!(find_from(b"abc", b"", 3), Some(3));
    assert_eq!(find_from(b"abc", b"", 4), None);
    assert_eq!(find_from(b"", b"", 0), Some(0));
    assert!(contains_bytes(b"", b""));
    assert!(!contains_bytes(b"", b"a"));
}

#[test]
fn matches_at_checks_bounds() {
    assert!(matches_at(b"hello", b"llo", 2));
    assert!(!matches_at(b"hello", b"llo", 3));
    assert!(!matches_at(b"hello", b"llo", 100));
    assert!(!matches_at(b"hello", b"hello!", 0));
    assert!(matches_at(b"hello", b"", 5));
    assert!(!matches_at(b"hello", b"", 6));
}

#[test]
fn text_containment() {
    assert!(contains_text("account sequence mismatch", "sequence"));
    assert!(!contains_text("account sequence mismatch", "Sequence"));
    assert!(contains_text("grüße", "üß"));
    assert!(!contains_text("", "x"));
}

#[test]
fn byte_and_text_equality() {
    assert!(same_bytes(b"abc", b"abc"));
    assert!(!same_bytes(b"abc", b"abd"));
    assert!(!same_bytes(b"abc", b"ab"));
    assert!(same_bytes(b"", b""));
    assert!(same_text("code_id", "code_id"));
    assert!(!same_text("code_id", "code_ids"));
}

#[test]
fn parses_decimal_numbers() {
    assert_eq!(parse_decimal(b"0"), Some(0));
    assert_eq!(parse_decimal(b"42"), Some(42));
    assert_eq!(parse_decimal(b"007"), Some(7));
    assert_eq!(parse_decimal(b"18446744073709551615"), Some(u64::MAX));
}

#[test]
fn rejects_what_is_no_decimal_number() {
    assert_eq!(parse_decimal(b""), None);
    assert_eq!(parse_decimal(b"+5"), None);
    assert_eq!(parse_decimal(b"-5"), None);
    assert_eq!(parse_decimal(b"12a"), None);
    assert_eq!(parse_decimal(b" 12"), None);
    assert_eq!(parse_decimal(b"18446744073709551616"), None);
    assert_eq!(parse_decimal(b"99999999999999999999999"), None);
}
