use llm_chat::decimal::Decimal;
use llm_chat::text::{
    decimal_text, eq_ignore_ascii_case, parse_unsigned, split_words, strip_prefix, to_lowercase,
    trim, trim_end_matches_char,
};

#[test]
fn trimming_and_words() {
    assert_eq!(trim("  a b \u{3000}"), "a b");
    assert_eq!(trim(" \n "), "");
    assert_eq!(split_words("  temp  0.5\tmax "), vec!["temp", "0.5", "max"]);
    assert_eq!(split_words(""), Vec::<String>::new());
    assert_eq!(trim_end_matches_char("http://x//", '/'), "http://x");
    assert_eq!(strip_prefix("models/gemini", "models/"), Some("gemini"));
    assert_eq!(strip_prefix("tuned/gemini", "models/"), None);
}

#[test]
fn case_handling() {
    assert!(eq_ignore_ascii_case("ReSeT", "reset"));
    assert!(!eq_ignore_ascii_case("reset!", "reset"));
    assert_eq!(to_lowercase("HuggingFace"), "huggingface");
    assert_eq!(to_lowercase("ÉTÉ"), "été");
}

#[test]
fn unsigned_numbers() {
    assert_eq!(parse_unsigned("42", 100), Some(42));
    assert_eq!(parse_unsigned("+7", 100), Some(7));
    assert_eq!(parse_unsigned("101", 100), None);
    assert_eq!(parse_unsigned("", 100), None);
    assert_eq!(parse_unsigned("+", 100), None);
    assert_eq!(parse_unsigned("4x", 100), None);
    assert_eq!(parse_unsigned("18446744073709551615", u64::MAX), Some(u64::MAX));
    assert_eq!(decimal_text(0), "0");
    assert_eq!(decimal_text(65535), "65535");
}

#[test]
fn decimals_parse_and_print() {
    assert_eq!(Decimal::parse("0.7"), Some(Decimal { negative: false, mantissa: 7, scale: 1 }));
    assert_eq!(Decimal::parse("-1.50"), Some(Decimal { negative: true, mantissa: 150, scale: 2 }));
    assert_eq!(Decimal::parse("5."), Some(Decimal { negative: false, mantissa: 5, scale: 0 }));
    assert_eq!(Decimal::parse("."), None);
    assert_eq!(Decimal::parse("1.2.3"), None);
    assert_eq!(Decimal::parse("1e3"), None);
    assert_eq!(Decimal::parse("1234567890123456789"), None);
    assert_eq!(Decimal { negative: false, mantissa: 25, scale: 3 }.to_text(), "0.025");
    assert_eq!(Decimal { negative: true, mantissa: 150, scale: 2 }.to_text(), "-1.50");
    assert_eq!(Decimal { negative: false, mantissa: 12, scale: 0 }.to_text(), "12");
    assert!(Decimal { negative: false, mantissa: 100, scale: 2 }.is_unit_interval());
    assert!(!Decimal { negative: false, mantissa: 101, scale: 2 }.is_unit_interval());
    assert!(Decimal { negative: true, mantissa: 0, scale: 0 }.is_unit_interval());
    assert!(Decimal { negative: false, mantissa: 5, scale: 30 }.is_unit_interval());
}
