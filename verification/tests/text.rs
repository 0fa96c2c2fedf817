use weather_station::text::{decimal_text, signed_decimal_text, two_decimals_text};

#[test]
fn decimal_of_small_numbers() {
    assert_eq!(decimal_text(0), "0");
    assert_eq!(decimal_text(7), "7");
    assert_eq!(decimal_text(10), "10");
    assert_eq!(decimal_text(1254), "1254");
}

#[test]
fn decimal_agrees_with_std() {
    for value in 0..3000u64 {
        assert_eq!(decimal_text(value), format!("{}", value));
    }
    assert_eq!(decimal_text(u64::MAX), format!("{}", u64::MAX));
    assert_eq!(decimal_text(1_000_000_007), "1000000007");
}

#[test]
fn signed_decimal_agrees_with_std() {
    for value in -1500..1500i32 {
        assert_eq!(signed_decimal_text(value), format!("{}", value));
    }
    assert_eq!(signed_decimal_text(i32::MIN), format!("{}", i32::MIN));
    assert_eq!(signed_decimal_text(i32::MAX), format!("{}", i32::MAX));
}

#[test]
fn two_decimals_keep_both_digits() {
    assert_eq!(two_decimals_text(0), "0.00");
    assert_eq!(two_decimals_text(5), "0.05");
    assert_eq!(two_decimals_text(50), "0.50");
    assert_eq!(two_decimals_text(100), "1.00");
    assert_eq!(two_decimals_text(2992), "29.92");
    assert_eq!(two_decimals_text(123_456), "1234.56");
}

#[test]
fn two_decimals_agree_with_std() {
    for value in 0..2500u64 {
        assert_eq!(two_decimals_text(value), format!("{}.{:02}", value / 100, value % 100));
    }
}
