use pake_registry::text::{decimal, same_text};

#[test]
fn numbers_are_written_in_decimal() {
    assert_eq!(decimal(0), "0");
    assert_eq!(decimal(7), "7");
    assert_eq!(decimal(10), "10");
    assert_eq!(decimal(1200), "1200");
    assert_eq!(decimal(9876543210), "9876543210");
    assert_eq!(decimal(u64::MAX), "18446744073709551615");
    assert_eq!(decimal(u64::MAX), u64::MAX.to_string());
}

#[test]
fn texts_are_compared_whole() {
    assert!(same_text("all", "all"));
    assert!(same_text("", ""));
    assert!(!same_text("all", "al"));
    assert!(!same_text("all", "All"));
}
