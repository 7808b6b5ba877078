use debug_counter::decimal::{decimal, push_decimal, push_signed};

#[test]
fn decimal_text_of_unsigned() {
    assert_eq!(decimal(0), "0");
    assert_eq!(decimal(7), "7");
    assert_eq!(decimal(10), "10");
    assert_eq!(decimal(1234567890), "1234567890");
    assert_eq!(decimal(u64::MAX as u128), "18446744073709551615");
    assert_eq!(decimal(u128::MAX), u128::MAX.to_string());
}

#[test]
fn decimal_text_is_appended() {
    let mut s = String::from("n=");
    push_decimal(&mut s, 42);
    assert_eq!(s, "n=42");
}

#[test]
fn decimal_text_of_signed() {
    let mut s = String::new();
    push_signed(&mut s, -1);
    assert_eq!(s, "-1");
    let mut s = String::new();
    push_signed(&mut s, 0);
    assert_eq!(s, "0");
    let mut s = String::new();
    push_signed(&mut s, i64::MIN);
    assert_eq!(s, "-9223372036854775808");
    let mut s = String::new();
    push_signed(&mut s, i64::MAX);
    assert_eq!(s, "9223372036854775807");
}
