use coriolis::Decimal;
use coriolis::parse_count;
use coriolis::parse_count_or_zero;
use coriolis::parse_decimal;
use coriolis::parse_decimal_or_zero;

fn dec(negative: bool, mantissa: u64, exponent: i32) -> Decimal {
    Decimal { negative, mantissa, exponent }
}

#[test]
fn plain_integers_parse_exactly() {
    assert_eq!(parse_decimal("0"), Some(dec(false, 0, 0)));
    assert_eq!(parse_decimal("8"), Some(dec(false, 8, 0)));
    assert_eq!(parse_decimal("1000"), Some(dec(false, 1000, 0)));
    assert_eq!(parse_decimal("000123"), Some(dec(false, 123, 0)));
}

#[test]
fn signs_are_honored() {
    assert_eq!(parse_decimal("-3"), Some(dec(true, 3, 0)));
    assert_eq!(parse_decimal("+0.25"), Some(dec(false, 25, -2)));
    assert_eq!(parse_decimal("-0"), Some(dec(true, 0, 0)));
}

#[test]
fn fractions_scale_the_exponent() {
    assert_eq!(parse_decimal("12.5"), Some(dec(false, 125, -1)));
    assert_eq!(parse_decimal("0.000125"), Some(dec(false, 125, -6)));
    assert_eq!(parse_decimal("5."), Some(dec(false, 5, 0)));
    assert_eq!(parse_decimal(".5"), Some(dec(false, 5, -1)));
}

#[test]
fn the_largest_mantissa_fits_and_one_more_does_not() {
    assert_eq!(
        parse_decimal("18446744073709551615"),
        Some(dec(false, u64::MAX, 0))
    );
    assert_eq!(parse_decimal("18446744073709551616"), None);
    assert_eq!(parse_decimal("99999999999999999999"), None);
}

#[test]
fn malformed_fields_fall_back_to_zero() {
    assert_eq!(parse_decimal(""), None);
    assert_eq!(parse_decimal("."), None);
    assert_eq!(parse_decimal("-"), None);
    assert_eq!(parse_decimal("abc"), None);
    assert_eq!(parse_decimal("1.2.3"), None);
    assert_eq!(parse_decimal("1e3"), None);
    assert_eq!(parse_decimal(" 1"), None);
    assert_eq!(parse_decimal_or_zero("abc"), dec(false, 0, 0));
    assert_eq!(parse_decimal_or_zero("1.2.3"), dec(false, 0, 0));
    assert_eq!(parse_decimal_or_zero("42"), dec(false, 42, 0));
}

#[test]
fn counts_parse_digits_only() {
    assert_eq!(parse_count("8"), Some(8));
    assert_eq!(parse_count("+8"), Some(8));
    assert_eq!(parse_count("0"), Some(0));
    assert_eq!(parse_count(""), None);
    assert_eq!(parse_count("-8"), None);
    assert_eq!(parse_count("8.5"), None);
    assert_eq!(parse_count("99999999999999999999999"), None);
    assert_eq!(parse_count_or_zero("12"), 12);
    assert_eq!(parse_count_or_zero("twelve"), 0);
}
