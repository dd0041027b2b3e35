use coinlcd::price::{format_price, parse_price_cents};

#[test]
fn formats_with_rounding() {
    assert_eq!(format_price("123.456").as_str(), "$123.46");
}

#[test]
fn unparsable_renders_zero() {
    assert_eq!(format_price("abc").as_str(), "$0.00");
}

#[test]
fn empty_renders_zero() {
    assert_eq!(format_price("").as_str(), "$0.00");
}

#[test]
fn whole_number() {
    assert_eq!(format_price("5").as_str(), "$5.00");
}

#[test]
fn one_fraction_digit() {
    assert_eq!(format_price("2.5").as_str(), "$2.50");
}

#[test]
fn two_fraction_digits_exact() {
    assert_eq!(format_price("19.99").as_str(), "$19.99");
}

#[test]
fn rounds_down_below_half() {
    assert_eq!(format_price("0.994").as_str(), "$0.99");
}

#[test]
fn rounds_up_from_half() {
    assert_eq!(format_price("0.995").as_str(), "$1.00");
}

#[test]
fn trailing_dot_parses() {
    assert_eq!(format_price("123.").as_str(), "$123.00");
}

#[test]
fn leading_dot_parses() {
    assert_eq!(format_price(".5").as_str(), "$0.50");
}

#[test]
fn lone_dot_is_unparsable() {
    assert_eq!(format_price(".").as_str(), "$0.00");
}

#[test]
fn two_dots_are_unparsable() {
    assert_eq!(format_price("1.2.3").as_str(), "$0.00");
}

#[test]
fn sign_is_unparsable() {
    assert_eq!(format_price("-1.00").as_str(), "$0.00");
}

#[test]
fn oversized_integer_part_is_unparsable() {
    assert_eq!(format_price("1234567890123456").as_str(), "$0.00");
}

#[test]
fn fifteen_digit_integer_part_parses() {
    assert_eq!(
        format_price("999999999999999.99").as_str(),
        "$999999999999999.99"
    );
}

#[test]
fn parse_cents_values() {
    assert_eq!(parse_price_cents("123.456"), 12346);
    assert_eq!(parse_price_cents("0"), 0);
    assert_eq!(parse_price_cents("0.005"), 1);
    assert_eq!(parse_price_cents("7"), 700);
    assert_eq!(parse_price_cents("garbage"), 0);
}
