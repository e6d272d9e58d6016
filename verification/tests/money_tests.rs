use tbank_bot::money::{format_cents, invest_cents, parse_cents, u64_to_dec};

#[test]
fn parse_whole_and_fractional_amounts() {
    assert_eq!(parse_cents("100.00"), Some(10000));
    assert_eq!(parse_cents("7"), Some(700));
    assert_eq!(parse_cents("0.5"), Some(50));
    assert_eq!(parse_cents("12.05"), Some(1205));
    assert_eq!(parse_cents("0"), Some(0));
}

#[test]
fn parse_rejects_malformed_amounts() {
    assert_eq!(parse_cents(""), None);
    assert_eq!(parse_cents("."), None);
    assert_eq!(parse_cents(".5"), None);
    assert_eq!(parse_cents("5."), None);
    assert_eq!(parse_cents("1.234"), None);
    assert_eq!(parse_cents("-3"), None);
    assert_eq!(parse_cents("12a"), None);
    assert_eq!(parse_cents("1 0"), None);
    // more integer digits than accepted
    assert_eq!(parse_cents("123456789012345678"), None);
}

#[test]
fn format_renders_two_fraction_digits() {
    assert_eq!(format_cents(10000), "100.00");
    assert_eq!(format_cents(1205), "12.05");
    assert_eq!(format_cents(5), "0.05");
    assert_eq!(format_cents(0), "0.00");
}

#[test]
fn decimal_rendering() {
    assert_eq!(u64_to_dec(0), "0");
    assert_eq!(u64_to_dec(907), "907");
}

#[test]
fn invest_amount_is_exact_percentage() {
    // 5% of 100.00 is 5.00
    assert_eq!(invest_cents(10000, 5), 500);
    // 2% of 9.99 is 0.1998, which rounds to 0.20
    assert_eq!(invest_cents(999, 2), 20);
    // 10% of 0.04 is 0.004, which rounds to 0.00
    assert_eq!(invest_cents(4, 10), 0);
    // 10% of 0.05 is 0.005, and halves round up
    assert_eq!(invest_cents(5, 10), 1);
}
