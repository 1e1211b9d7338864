use rust_ls::text::{decimal_text, signed_decimal_text};

#[test]
fn decimal_small_and_large() {
    assert_eq!(decimal_text(0), "0");
    assert_eq!(decimal_text(7), "7");
    assert_eq!(decimal_text(10), "10");
    assert_eq!(decimal_text(4096), "4096");
    assert_eq!(decimal_text(u64::MAX as u128), "18446744073709551615");
    assert_eq!(decimal_text(u128::MAX), u128::MAX.to_string());
}

#[test]
fn signed_decimal_both_signs() {
    assert_eq!(signed_decimal_text(0), "0");
    assert_eq!(signed_decimal_text(-42), "-42");
    assert_eq!(signed_decimal_text(1_700_000_000), "1700000000");
    assert_eq!(signed_decimal_text(i64::MIN), "-9223372036854775808");
}
