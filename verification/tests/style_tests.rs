use nanoterm::num::{format_fixed, FixedNum};
use nanoterm::style::{style, ColorClass};

#[test]
fn format_truncates_to_the_requested_decimals() {
    assert_eq!(format_fixed(1_234_560, 2).as_str(), "1.23");
    assert_eq!(format_fixed(1_234_560, 5).as_str(), "1.23456");
    assert_eq!(format_fixed(-1_234_560, 6).as_str(), "-1.234560");
    assert_eq!(format_fixed(0, 2).as_str(), "0.00");
    assert_eq!(format_fixed(5, 6).as_str(), "0.000005");
    assert_eq!(format_fixed(10_000_000, 0).as_str(), "10");
    assert_eq!(format_fixed(-10_500_000, 1).as_str(), "-10.5");
}

#[test]
fn positive_delta_gets_plus_and_positive_class() {
    let line = style(FixedNum::Finite(1_234_560), "X: ", 2, 6);
    assert_eq!(line.class, ColorClass::Positive);
    assert_eq!(line.text.as_str(), "X: +1.23");
    assert!(line.text.contains("+1.23"));
}

#[test]
fn negative_delta_keeps_its_own_sign_and_negative_class() {
    let line = style(FixedNum::Finite(-1_234_560), "X: ", 5, 6);
    assert_eq!(line.class, ColorClass::Negative);
    assert_eq!(line.text.as_str(), "X: -1.234560");
}

#[test]
fn zero_delta_is_neutral() {
    let line = style(FixedNum::Finite(0), "X: ", 5, 6);
    assert_eq!(line.class, ColorClass::Neutral);
    assert_eq!(line.text.as_str(), "X: 0.000000");
}

#[test]
fn non_finite_delta_is_informational_with_placeholder() {
    let line = style(FixedNum::NonFinite, "X: ", 5, 6);
    assert_eq!(line.class, ColorClass::Informational);
    assert_eq!(line.text.as_str(), "X: \u{2014}");
}

#[test]
fn change_line_matches_the_dashboard_format() {
    let line = style(FixedNum::Finite(2_000_000), "Change 24h: % ", 5, 6);
    assert_eq!(line.text.as_str(), "Change 24h: % +2.00000");
    let line = style(FixedNum::Finite(-500_000), "Change 1h: % ", 5, 6);
    assert_eq!(line.text.as_str(), "Change 1h: % -0.500000");
}
