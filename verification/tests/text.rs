//! Numbers and joined texts as messages show them.

use ajedrez_svc::text::{decimal_text, join};

#[test]
fn decimal_of_small_numbers() {
    assert_eq!(decimal_text(0), "0");
    assert_eq!(decimal_text(7), "7");
    assert_eq!(decimal_text(10), "10");
    assert_eq!(decimal_text(999), "999");
    assert_eq!(decimal_text(1005), "1005");
}

#[test]
fn decimal_of_negative_numbers() {
    assert_eq!(decimal_text(-1), "-1");
    assert_eq!(decimal_text(-120), "-120");
}

#[test]
fn decimal_of_the_extremes() {
    assert_eq!(decimal_text(i32::MAX), "2147483647");
    assert_eq!(decimal_text(i32::MIN), "-2147483648");
}

#[test]
fn decimal_agrees_with_the_formatter() {
    for n in [-100_000, -99, -10, -9, 0, 9, 10, 11, 99, 100, 101, 65_535, 1_000_000_007] {
        assert_eq!(decimal_text(n), format!("{}", n));
    }
}

#[test]
fn join_puts_one_text_after_another() {
    assert_eq!(join("ab", "cd"), "abcd");
    assert_eq!(join("", "cd"), "cd");
    assert_eq!(join("ab", ""), "ab");
    assert_eq!(join("é", "ñ"), "éñ");
}
