use hypermon::text::{
    decimal_text, push_decimal, push_signed_decimal, signed_decimal_text, truth_value_text,
};

#[test]
fn decimal_text_of_small_numbers() {
    assert_eq!(decimal_text(0), "0");
    assert_eq!(decimal_text(7), "7");
    assert_eq!(decimal_text(10), "10");
    assert_eq!(decimal_text(1905), "1905");
}

#[test]
fn decimal_text_of_the_largest_number() {
    assert_eq!(decimal_text(u128::MAX), u128::MAX.to_string());
    assert_eq!(decimal_text(u64::MAX as u128), "18446744073709551615");
}

#[test]
fn signed_decimal_text_has_a_sign_only_below_zero() {
    assert_eq!(signed_decimal_text(50), "50");
    assert_eq!(signed_decimal_text(0), "0");
    assert_eq!(signed_decimal_text(-1), "-1");
    assert_eq!(signed_decimal_text(-130), "-130");
    assert_eq!(signed_decimal_text(i128::MIN), i128::MIN.to_string());
    assert_eq!(signed_decimal_text(i128::MAX), i128::MAX.to_string());
}

#[test]
fn digits_are_appended() {
    let mut out = String::from("n=");
    push_decimal(&mut out, 42);
    out.push(' ');
    push_signed_decimal(&mut out, -42);
    assert_eq!(out, "n=42 -42");
}

#[test]
fn truth_values_have_their_names() {
    assert_eq!(truth_value_text(true), "true");
    assert_eq!(truth_value_text(false), "false");
}
