use yfinance_mcp::clock::{expiration_timestamp, fmt_ts_ms};

#[test]
fn fmt_ts_ms_gives_the_utc_day() {
    assert_eq!(fmt_ts_ms(0), "1970-01-01");
    assert_eq!(fmt_ts_ms(1_700_000_000_000), "2023-11-14");
    assert_eq!(fmt_ts_ms(86_399_999), "1970-01-01");
    assert_eq!(fmt_ts_ms(86_400_000), "1970-01-02");
    assert_eq!(fmt_ts_ms(-86_400_000), "1969-12-31");
}

#[test]
fn fmt_ts_ms_falls_back_to_the_milliseconds() {
    assert_eq!(fmt_ts_ms(-1), "-1");
    assert_eq!(fmt_ts_ms(-1_500), "-1500");
    assert_eq!(fmt_ts_ms(i64::MAX), i64::MAX.to_string());
    assert_eq!(fmt_ts_ms(i64::MIN), i64::MIN.to_string());
}

#[test]
fn expiration_timestamp_reads_dates() {
    assert_eq!(expiration_timestamp(Some("2024-01-19")), Some(1_705_622_400));
    assert_eq!(expiration_timestamp(Some("1970-01-01")), Some(0));
    assert_eq!(expiration_timestamp(Some("2024-13-01")), None);
    assert_eq!(expiration_timestamp(Some("soon")), None);
    assert_eq!(expiration_timestamp(None), None);
}
