use alpaca_types::errors::DecodeError;
use alpaca_types::integers::parse_i64;
use alpaca_types::numeric::{
    format_quantity, parse_optional, parse_or_zero, parse_required, Number,
};
use alpaca_types::text::str_eq;

fn as_float(n: &Number) -> f64 {
    n.as_str().parse::<f64>().expect("a number's text is a float")
}

#[test]
fn parse_required_reads_decimal_text() {
    assert_eq!(as_float(&parse_required("3.2").unwrap()), 3.2);
    assert_eq!(as_float(&parse_required("-100").unwrap()), -100.0);
    assert_eq!(as_float(&parse_required("0.0081699346405229").unwrap()), 0.0081699346405229);
    assert_eq!(parse_required("105.0").unwrap().as_str(), "105.0");
}

#[test]
fn parse_required_refuses_what_is_no_number() {
    assert!(matches!(parse_required(""), Err(DecodeError::InvalidNumber)));
    assert!(matches!(parse_required("not-a-number"), Err(DecodeError::InvalidNumber)));
    assert!(matches!(parse_required(" 1"), Err(DecodeError::InvalidNumber)));
    assert!(matches!(parse_required("1,5"), Err(DecodeError::InvalidNumber)));
}

#[test]
fn parse_optional_follows_its_input() {
    assert!(parse_optional(None).unwrap().is_none());
    let some = parse_optional(Some("12.5")).unwrap();
    assert_eq!(some.as_ref().map(as_float), Some(12.5));
    assert!(matches!(parse_optional(Some("twelve")), Err(DecodeError::InvalidNumber)));
    assert!(matches!(parse_optional(Some("")), Err(DecodeError::InvalidNumber)));
}

#[test]
fn parse_or_zero_never_fails() {
    assert_eq!(as_float(&parse_or_zero("")), 0.0);
    assert_eq!(as_float(&parse_or_zero("not-a-number")), 0.0);
    assert_eq!(as_float(&parse_or_zero("3.2")), 3.2);
    assert_eq!(parse_or_zero("").as_str(), "0");
    assert_eq!(Number::zero().as_str(), "0");
}

#[test]
fn format_quantity_writes_the_number() {
    let ten = Number::parse(&10.0_f64.to_string()).unwrap();
    assert_eq!(format_quantity(&ten), "10");
    assert_eq!(format_quantity(&parse_required("0.25").unwrap()), "0.25");
}

#[test]
fn quantity_survives_a_round_trip() {
    for s in ["105.0", "-100", "0.0081699346405229", "1e-7", "12.5", ".5", "5.", "+3", "inf"] {
        let first = parse_required(s).unwrap();
        let written = format_quantity(&first);
        let second = parse_required(&written).unwrap();
        assert_eq!(as_float(&second), s.parse::<f64>().unwrap());
        assert_eq!(second.as_str(), first.as_str());
    }
}

#[test]
fn numbers_are_what_the_platform_reads_as_floats() {
    let cases = [
        "0", "7", "007", "-1", "+1", "1.", ".1", "1.5", "-.5", "+5.", "1e5", "1E5", "1e+5", "1e-5",
        "1.5e10", ".5e1", "5.e1", "inf", "-inf", "+inf", "INF", "Infinity", "infinity", "-INFINITY",
        "nan", "NaN", "-nan", "+NAN", "", ".", "+", "-", "e5", "1e", "1e+", "1e-", ".e1", "+.e1",
        "1.2.3", "1e5.0", "1e5e5", "--1", "+-1", "1+", "0x10", "1_000", " 1", "1 ", "1f", "in",
        "infinit", "infinityy", "na", "nann", "١", "1é", "１", "1.0e", "e", "E", ".e", "1..", "..1",
        "1e1.", "123456789012345678901234567890", "0.000000000000000000000000000001", "1e400",
        "-0", "-0.0", "i", "n", "inf.", ".inf", "+e1", "1,5", "\u{0}", "1\u{0}",
    ];
    for s in cases {
        assert_eq!(Number::is_valid(s), s.parse::<f64>().is_ok(), "{:?}", s);
        assert_eq!(Number::parse(s).is_some(), s.parse::<f64>().is_ok(), "{:?}", s);
    }
}

#[test]
fn number_keeps_its_text() {
    let n = Number::parse("-1.50e+3").unwrap();
    assert_eq!(n.as_str(), "-1.50e+3");
    assert_eq!(n.clone().as_str(), "-1.50e+3");
    assert_eq!(as_float(&n), -1500.0);
}

#[test]
fn integers_are_read_within_64_bits() {
    assert_eq!(parse_i64("0"), Some(0));
    assert_eq!(parse_i64("826"), Some(826));
    assert_eq!(parse_i64("-826"), Some(-826));
    assert_eq!(parse_i64("007"), Some(7));
    assert_eq!(parse_i64("9223372036854775807"), Some(i64::MAX));
    assert_eq!(parse_i64("-9223372036854775808"), Some(i64::MIN));
    assert_eq!(parse_i64("9223372036854775808"), None);
    assert_eq!(parse_i64("-9223372036854775809"), None);
    assert_eq!(parse_i64("18446744073709551616"), None);
    assert_eq!(parse_i64("99999999999999999999999999999999"), None);
    assert_eq!(parse_i64(""), None);
    assert_eq!(parse_i64("-"), None);
    assert_eq!(parse_i64("+1"), None);
    assert_eq!(parse_i64("1.0"), None);
    assert_eq!(parse_i64("1e3"), None);
    assert_eq!(parse_i64("12a"), None);
    assert_eq!(parse_i64("--1"), None);
    assert_eq!(parse_i64("١"), None);
}

#[test]
fn strings_compare_by_their_characters() {
    assert!(str_eq("", ""));
    assert!(str_eq("buy", "buy"));
    assert!(!str_eq("buy", "Buy"));
    assert!(!str_eq("buy", "buys"));
    assert!(!str_eq("é", "e"));
    assert!(str_eq("é", "é"));
}
