use relay_stations::station::{AuthMethod, RelayStationAdapter};
use relay_stations::text::{
    decimal_string, ends_with, is_blank, or_empty, parse_i64, parse_int_in, strip_leading, to_chars,
};

#[test]
fn decimal_string_renders_sign_and_digits() {
    assert_eq!(decimal_string(0), "0");
    assert_eq!(decimal_string(-1), "-1");
    assert_eq!(decimal_string(500000), "500000");
    assert_eq!(decimal_string(i64::MIN as i128), "-9223372036854775808");
}

#[test]
fn parse_i64_reads_what_std_reads() {
    assert_eq!(parse_i64("42"), Some(42));
    assert_eq!(parse_i64("+7"), Some(7));
    assert_eq!(parse_i64("-9223372036854775808"), Some(i64::MIN));
    assert_eq!(parse_i64("9223372036854775808"), None);
    assert_eq!(parse_i64(""), None);
    assert_eq!(parse_i64("-"), None);
    assert_eq!(parse_i64("12a"), None);
    assert_eq!(parse_i64(" 1"), None);
}

#[test]
fn blank_texts_are_those_of_whitespace() {
    assert!(is_blank(""));
    assert!(is_blank(" \t\n"));
    assert!(!is_blank(" a "));
    assert!(is_blank("\u{3000}\u{a0}"));
    assert!(!is_blank("\u{200b}"));
}

#[test]
fn ends_with_and_strip_leading() {
    assert!(ends_with("setup.exe", ".exe"));
    assert!(!ends_with("exe", ".exe"));
    assert!(ends_with("abc", ""));
    assert!(!ends_with("setup.exe.txt", ".exe"));
    assert_eq!(strip_leading("vv1.2", 'v'), "1.2");
    assert_eq!(strip_leading("1.2v", 'v'), "1.2v");
    assert_eq!(strip_leading("vvv", 'v'), "");
}

#[test]
fn names_are_compared_as_texts() {
    assert_eq!(RelayStationAdapter::from_name("yourapi"), RelayStationAdapter::Yourapi);
    assert_eq!(RelayStationAdapter::from_name("yourap"), RelayStationAdapter::Newapi);
    assert_eq!(RelayStationAdapter::from_name("yourapi "), RelayStationAdapter::Newapi);
    assert_eq!(RelayStationAdapter::from_name("Custom"), RelayStationAdapter::Newapi);
    assert_eq!(RelayStationAdapter::from_name("custom"), RelayStationAdapter::Custom);
    assert_eq!(AuthMethod::from_name("api_key"), AuthMethod::ApiKey);
    assert_eq!(AuthMethod::from_name(""), AuthMethod::BearerToken);
    assert_eq!(or_empty(&None), "");
    assert_eq!(or_empty(&Some("x".to_string())), "x");
}

#[test]
fn parse_int_in_reads_a_range() {
    let chars = to_chars("ab123cd");
    assert_eq!(parse_int_in(&chars, 2, 5, false, 0, 1000), Some(123));
    assert_eq!(parse_int_in(&chars, 2, 5, false, 0, 100), None);
    assert_eq!(parse_int_in(&chars, 1, 5, false, 0, 1000), None);
    assert_eq!(parse_int_in(&chars, 2, 2, false, 0, 1000), None);
    let signed = to_chars("-5");
    assert_eq!(parse_int_in(&signed, 0, 2, true, -10, 10), Some(-5));
    assert_eq!(parse_int_in(&signed, 0, 2, false, 0, 10), None);
}
