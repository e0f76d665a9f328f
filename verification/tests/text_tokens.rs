use metal_lion::text::eighth_of_token;
use metal_lion::text::half_of_token;
use metal_lion::text::is_numeric_token;
use metal_lion::text::parse_decimal;
use metal_lion::text::u64_to_string;

#[test]
fn renders_small_numbers() {
    assert_eq!(u64_to_string(0), "0");
    assert_eq!(u64_to_string(7), "7");
    assert_eq!(u64_to_string(120), "120");
    assert_eq!(u64_to_string(1000000000000000000), "1000000000000000000");
}

#[test]
fn parses_decimal_tokens() {
    assert_eq!(parse_decimal("0"), 0);
    assert_eq!(parse_decimal("11"), 11);
    assert_eq!(parse_decimal("017"), 17);
    assert_eq!(parse_decimal("999999999999999999"), 999999999999999999);
}

#[test]
fn recognises_numeric_tokens() {
    assert!(is_numeric_token("11"));
    assert!(is_numeric_token("000000000000000001"));
    assert!(!is_numeric_token(""));
    assert!(!is_numeric_token("12a"));
    assert!(!is_numeric_token("11.5"));
    assert!(!is_numeric_token("1234567890123456789"));
}

#[test]
fn halves_exactly() {
    assert_eq!(half_of_token("11"), "5.5");
    assert_eq!(half_of_token("12"), "6");
    assert_eq!(half_of_token("8"), "4");
    assert_eq!(half_of_token("1"), "0.5");
}

#[test]
fn eighths_exactly() {
    assert_eq!(eighth_of_token("11"), "1.375");
    assert_eq!(eighth_of_token("16"), "2");
    assert_eq!(eighth_of_token("12"), "1.5");
    assert_eq!(eighth_of_token("10"), "1.25");
    assert_eq!(eighth_of_token("15"), "1.875");
    assert_eq!(eighth_of_token("13"), "1.625");
    assert_eq!(eighth_of_token("14"), "1.75");
    assert_eq!(eighth_of_token("9"), "1.125");
    assert_eq!(eighth_of_token("7"), "0.875");
}
