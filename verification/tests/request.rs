use yfinance_mcp::request::{parse_interval, parse_range, Interval, Range};

#[test]
fn parse_range_reads_every_code() {
    let cases = [
        ("1d", Range::D1),
        ("5d", Range::D5),
        ("1mo", Range::M1),
        ("3mo", Range::M3),
        ("6mo", Range::M6),
        ("ytd", Range::Ytd),
        ("1y", Range::Y1),
        ("2y", Range::Y2),
        ("5y", Range::Y5),
        ("10y", Range::Y10),
        ("max", Range::Max),
    ];
    for (code, range) in cases {
        assert_eq!(parse_range(Some(code)), range);
    }
}

#[test]
fn parse_range_defaults_to_six_months() {
    assert_eq!(parse_range(None), Range::M6);
    assert_eq!(parse_range(Some("forever")), Range::M6);
    assert_eq!(parse_range(Some("1D")), Range::M6);
}

#[test]
fn parse_interval_reads_every_code() {
    let cases = [
        ("1m", Interval::I1m),
        ("2m", Interval::I2m),
        ("5m", Interval::I5m),
        ("15m", Interval::I15m),
        ("30m", Interval::I30m),
        ("1h", Interval::I1h),
        ("1d", Interval::D1),
        ("5d", Interval::D5),
        ("1wk", Interval::W1),
        ("1mo", Interval::M1),
        ("3mo", Interval::M3),
    ];
    for (code, interval) in cases {
        assert_eq!(parse_interval(Some(code)), Some(interval));
    }
}

#[test]
fn parse_interval_defaults_and_rejects() {
    assert_eq!(parse_interval(None), Some(Interval::D1));
    assert_eq!(parse_interval(Some("4h")), None);
    assert_eq!(parse_interval(Some("")), None);
}
