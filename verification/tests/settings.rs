use yfinance_mcp::settings::{
    base_url, client_settings, cors_allows_any, http_port, listen_addr, mcp_accept_value,
    needs_accept_header, reports_dir, setting_or,
};

#[test]
fn documented_defaults() {
    let c = client_settings(None, None, None, None, None);
    assert_eq!(c.cache_ttl_secs, 300);
    assert_eq!(c.timeout_secs, 30);
    assert_eq!(c.max_retries, 5);
    assert_eq!(c.retry_base_delay_secs, 2);
    assert_eq!(c.retry_max_delay_secs, 30);
}

#[test]
fn configured_values_and_bad_values() {
    let c = client_settings(Some("60"), Some("abc"), Some("4294967296"), Some("+7"), Some("-1"));
    assert_eq!(c.cache_ttl_secs, 60);
    assert_eq!(c.timeout_secs, 30);
    assert_eq!(c.max_retries, 5);
    assert_eq!(c.retry_base_delay_secs, 7);
    assert_eq!(c.retry_max_delay_secs, 30);
    assert_eq!(client_settings(None, None, Some("4294967295"), None, None).max_retries, u32::MAX);
    assert_eq!(setting_or(Some(""), 10, 3), 3);
    assert_eq!(setting_or(Some("10"), 10, 3), 10);
    assert_eq!(setting_or(Some("11"), 10, 3), 3);
}

#[test]
fn http_settings() {
    assert_eq!(http_port(None), None);
    assert_eq!(http_port(Some("8080")), Some(8080));
    assert_eq!(http_port(Some("65536")), None);
    assert_eq!(http_port(Some("http")), None);
    assert_eq!(base_url(None, 8080), "http://localhost:8080");
    assert_eq!(base_url(Some("https://example.com"), 8080), "https://example.com");
    assert_eq!(listen_addr(3000), "0.0.0.0:3000");
    assert_eq!(reports_dir(None), "./yfinance-reports");
    assert_eq!(reports_dir(Some("/tmp/r")), "/tmp/r");
}

#[test]
fn accept_header_and_cors() {
    assert!(needs_accept_header("/mcp", false));
    assert!(needs_accept_header("/mcp/session", false));
    assert!(!needs_accept_header("/mcp", true));
    assert!(!needs_accept_header("/reports/x.html", false));
    assert!(!needs_accept_header("/mc", false));
    assert_eq!(mcp_accept_value(), "application/json, text/event-stream");
    assert!(cors_allows_any("*"));
    assert!(!cors_allows_any("https://a.b"));
}
