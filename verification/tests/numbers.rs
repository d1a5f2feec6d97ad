//! Decimal parsing of predicate thresholds.

use siera::numbers::parse_i32;

#[test]
fn plain_number_parses() {
    assert_eq!(parse_i32("18"), Some(18));
}

#[test]
fn zero_parses() {
    assert_eq!(parse_i32("0"), Some(0));
}

#[test]
fn explicit_plus_sign_parses() {
    assert_eq!(parse_i32("+18"), Some(18));
}

#[test]
fn negative_number_parses() {
    assert_eq!(parse_i32("-18"), Some(-18));
}

#[test]
fn leading_zeros_parse() {
    assert_eq!(parse_i32("0018"), Some(18));
}

#[test]
fn words_do_not_parse() {
    assert_eq!(parse_i32("eighteen"), None);
}

#[test]
fn empty_text_does_not_parse() {
    assert_eq!(parse_i32(""), None);
}

#[test]
fn bare_signs_do_not_parse() {
    assert_eq!(parse_i32("-"), None);
    assert_eq!(parse_i32("+"), None);
}

#[test]
fn embedded_spaces_do_not_parse() {
    assert_eq!(parse_i32(" 18"), None);
    assert_eq!(parse_i32("18 "), None);
    assert_eq!(parse_i32("1 8"), None);
}

#[test]
fn trailing_garbage_does_not_parse() {
    assert_eq!(parse_i32("18x"), None);
    assert_eq!(parse_i32("1.8"), None);
}

#[test]
fn extreme_values_parse_exactly_at_the_range_edge() {
    assert_eq!(parse_i32("2147483647"), Some(i32::MAX));
    assert_eq!(parse_i32("2147483648"), None);
    assert_eq!(parse_i32("-2147483648"), Some(i32::MIN));
    assert_eq!(parse_i32("-2147483649"), None);
    assert_eq!(parse_i32("99999999999999999999"), None);
}
