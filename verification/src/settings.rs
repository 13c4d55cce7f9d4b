//! Server settings read from the environment's text values, the HTTP
//! addresses, and the decisions of the HTTP front end.

use vstd::prelude::*;
use crate::request::opt_view;
use crate::text::{
    lemma_parse_decimal_round_trip, nat_digits, parse_unsigned, parse_unsigned_spec, push_digits,
    starts_with, text_eq,
};

verus! {

/// Default response cache lifetime, in seconds.
pub const DEFAULT_CACHE_TTL_SECS: u64 = 300;

/// Default request timeout, in seconds.
pub const DEFAULT_TIMEOUT_SECS: u64 = 30;

/// Default number of retries on rate limits and server errors.
pub const DEFAULT_MAX_RETRIES: u32 = 5;

/// Default initial retry backoff, in seconds.
pub const DEFAULT_RETRY_BASE_DELAY_SECS: u64 = 2;

/// Default largest retry backoff, in seconds.
pub const DEFAULT_RETRY_MAX_DELAY_SECS: u64 = 30;

/// How the Yahoo Finance client is set up.
pub struct ClientSettings {
    pub cache_ttl_secs: u64,
    pub timeout_secs: u64,
    pub max_retries: u32,
    pub retry_base_delay_secs: u64,
    pub retry_max_delay_secs: u64,
}

/// The value of a numeric setting: the number its text reads as (an
/// unsigned number no larger than `max`), else `default`.
pub open spec fn setting_value(text: Option<Seq<char>>, max: nat, default: nat) -> nat {
    match text {
        Some(t) => match parse_unsigned_spec(t, max) {
            Some(n) => n,
            None => default,
        },
        None => default,
    }
}

/// Reads a setting of at most `max`, falling back to `default` when it is
/// unset or does not read as such a number.
pub fn setting_or(text: Option<&str>, max: u64, default: u64) -> (r: u64)
    ensures
        r == setting_value(opt_view(text), max as nat, default as nat),
{
    match text {
        Some(t) => match parse_unsigned(t, max) {
            Some(n) => n,
            None => default,
        },
        None => default,
    }
}

/// The client settings from the texts of `YFINANCE_CACHE_TTL`,
/// `YFINANCE_TIMEOUT`, `YFINANCE_MAX_RETRIES`, `YFINANCE_RETRY_BASE_DELAY`
/// and `YFINANCE_RETRY_MAX_DELAY` (each `None` when unset).
pub fn client_settings(
    cache_ttl: Option<&str>,
    timeout: Option<&str>,
    max_retries: Option<&str>,
    retry_base_delay: Option<&str>,
    retry_max_delay: Option<&str>,
) -> (r: ClientSettings)
    ensures
        r.cache_ttl_secs == setting_value(opt_view(cache_ttl), u64::MAX as nat, 300),
        r.timeout_secs == setting_value(opt_view(timeout), u64::MAX as nat, 30),
        r.max_retries == setting_value(opt_view(max_retries), u32::MAX as nat, 5),
        r.retry_base_delay_secs == setting_value(opt_view(retry_base_delay), u64::MAX as nat, 2),
        r.retry_max_delay_secs == setting_value(opt_view(retry_max_delay), u64::MAX as nat, 30),
{
    let retries = setting_or(max_retries, u32::MAX as u64, DEFAULT_MAX_RETRIES as u64);
    ClientSettings {
        cache_ttl_secs: setting_or(cache_ttl, u64::MAX, DEFAULT_CACHE_TTL_SECS),
        timeout_secs: setting_or(timeout, u64::MAX, DEFAULT_TIMEOUT_SECS),
        max_retries: retries as u32,
        retry_base_delay_secs: setting_or(retry_base_delay, u64::MAX, DEFAULT_RETRY_BASE_DELAY_SECS),
        retry_max_delay_secs: setting_or(retry_max_delay, u64::MAX, DEFAULT_RETRY_MAX_DELAY_SECS),
    }
}

/// A setting written as the decimal text of a number in range reads back
/// as that number, whatever the default.
pub proof fn lemma_setting_of_decimal(n: nat, max: nat, default: nat)
    requires
        n <= max,
    ensures
        setting_value(Some(nat_digits(n)), max, default) == n,
{
    lemma_parse_decimal_round_trip(n, max);
}

/// The HTTP port from the text of `YFINANCE_HTTP_PORT`: `None` (serve over
/// stdio) when unset or not a number from 0 to 65535.
pub fn http_port(text: Option<&str>) -> (r: Option<u16>)
    ensures
        r == match opt_view(text) {
            Some(t) => match parse_unsigned_spec(t, u16::MAX as nat) {
                Some(n) => Some(n as u16),
                None => None,
            },
            None => None,
        },
{
    match text {
        Some(t) => match parse_unsigned(t, u16::MAX as u64) {
            Some(n) => Some(n as u16),
            None => None,
        },
        None => None,
    }
}

/// `http://localhost:port`.
pub open spec fn local_url_text(port: u16) -> Seq<char> {
    "http://localhost:"@ + nat_digits(port as nat)
}

/// The base URL of report links: the configured one, else
/// `http://localhost:<port>`.
pub fn base_url(configured: Option<&str>, port: u16) -> (r: String)
    ensures
        r@ == match configured {
            Some(u) => u@,
            None => local_url_text(port),
        },
{
    match configured {
        Some(u) => String::from_str(u),
        None => {
            let mut out = String::new();
            out.append("http://localhost:");
            push_digits(&mut out, port as u64);
            assert(out@ =~= local_url_text(port));
            out
        },
    }
}

/// `0.0.0.0:port`.
pub open spec fn listen_addr_text(port: u16) -> Seq<char> {
    "0.0.0.0:"@ + nat_digits(port as nat)
}

/// The address the HTTP server listens on: all interfaces, on `port`.
pub fn listen_addr(port: u16) -> (r: String)
    ensures
        r@ == listen_addr_text(port),
{
    let mut out = String::new();
    out.append("0.0.0.0:");
    push_digits(&mut out, port as u64);
    assert(out@ =~= listen_addr_text(port));
    out
}

/// The directory for generated reports: the configured one, else
/// `./yfinance-reports`.
pub fn reports_dir(configured: Option<&str>) -> (r: String)
    ensures
        r@ == match configured {
            Some(d) => d@,
            None => "./yfinance-reports"@,
        },
{
    match configured {
        Some(d) => String::from_str(d),
        None => String::from_str("./yfinance-reports"),
    }
}

/// Whether a request must be given an `Accept` header before it reaches the
/// MCP endpoint: its path starts with `/mcp` and it has none.
pub fn needs_accept_header(path: &str, has_accept: bool) -> (r: bool)
    ensures
        r == (!has_accept && "/mcp"@.len() <= path@.len() && path@.subrange(0, "/mcp"@.len() as int)
            == "/mcp"@),
{
    !has_accept && starts_with(path, "/mcp")
}

/// The `Accept` header given to such a request: both JSON and event streams.
pub fn mcp_accept_value() -> (r: &'static str)
    ensures
        r@ == "application/json, text/event-stream"@,
{
    "application/json, text/event-stream"
}

/// Whether a configured CORS origin allows any origin (it is `*`).
pub fn cors_allows_any(origin: &str) -> (r: bool)
    ensures
        r == (origin@ == "*"@),
{
    text_eq(origin, "*")
}

} // verus!
