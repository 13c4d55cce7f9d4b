use yfinance_mcp::text::{i64_text, parse_unsigned, text_eq, u64_text, usize_text};

#[test]
fn decimal_text_of_integers() {
    assert_eq!(i64_text(0), "0");
    assert_eq!(i64_text(-1), "-1");
    assert_eq!(i64_text(1_700_000_000_000), "1700000000000");
    assert_eq!(i64_text(i64::MIN), i64::MIN.to_string());
    assert_eq!(i64_text(i64::MAX), i64::MAX.to_string());
    assert_eq!(u64_text(u64::MAX), u64::MAX.to_string());
    assert_eq!(usize_text(42), "42");
}

#[test]
fn parse_unsigned_follows_str_parse() {
    for s in ["", "+", "-", "-5", "+5", "007", "12a", " 1", "1 ", "65535", "65536", "4294967295", "4294967296"] {
        assert_eq!(parse_unsigned(s, u16::MAX as u64), s.parse::<u16>().ok().map(|v| v as u64), "{s}");
        assert_eq!(parse_unsigned(s, u32::MAX as u64), s.parse::<u32>().ok().map(|v| v as u64), "{s}");
    }
    assert_eq!(parse_unsigned("18446744073709551615", u64::MAX), Some(u64::MAX));
    assert_eq!(parse_unsigned("18446744073709551616", u64::MAX), None);
    assert_eq!(parse_unsigned("99999999999999999999x", u64::MAX), None);
}

#[test]
fn decimal_round_trip() {
    for n in [0u64, 7, 10, 300, 65535, u64::MAX] {
        assert_eq!(parse_unsigned(&u64_text(n), u64::MAX), Some(n));
    }
}

#[test]
fn text_equality() {
    assert!(text_eq("max", "max"));
    assert!(!text_eq("max", "ma"));
    assert!(!text_eq("1d", "5d"));
    assert!(text_eq("", ""));
}
