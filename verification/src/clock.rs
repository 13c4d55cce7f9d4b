//! Calendar dates of Unix timestamps, through `chrono`.

use vstd::prelude::*;
use crate::text::{int_text, i64_text};

verus! {

/// What `chrono` gives for a UTC instant of `secs` seconds and `nsecs`
/// nanoseconds after the Unix epoch, formatted with `%Y-%m-%d`; `None` where
/// `chrono` has no such instant.
pub uninterp spec fn utc_date_text(secs: i64, nsecs: u32) -> Option<Seq<char>>;

/// What `chrono` gives when it reads `text` as a `%Y-%m-%d` date: the Unix
/// timestamp of that day's midnight in UTC, or `None` when the text is no such
/// date.
pub uninterp spec fn ymd_midnight_timestamp(text: Seq<char>) -> Option<i64>;

/// `chrono::DateTime::<Utc>::from_timestamp(secs, nsecs)`, formatted with
/// `%Y-%m-%d`. The result is named `utc_date_text`. The facts stated beside
/// the name come from chrono's source: the nanosecond part must be below
/// two billion (below one billion except on the last second of a minute,
/// where it marks a leap second), and every instant within some 250,000
/// years of the epoch exists. Which year range chrono accepts beyond that is
/// left unsaid.
#[verifier::external_body]
fn chrono_utc_date(secs: i64, nsecs: u32) -> (r: Option<String>)
    ensures
        match r {
            Some(t) => utc_date_text(secs, nsecs) == Some(t@),
            None => utc_date_text(secs, nsecs) is None,
        },
        nsecs >= 2_000_000_000 ==> r is None,
        nsecs < 1_000_000_000 && -8_000_000_000_000 <= secs <= 8_000_000_000_000 ==> r is Some,
{
    match chrono::DateTime::<chrono::Utc>::from_timestamp(secs, nsecs) {
        Some(dt) => Some(dt.format("%Y-%m-%d").to_string()),
        None => None,
    }
}

/// `chrono::NaiveDate::parse_from_str(text, "%Y-%m-%d")`, taken to midnight
/// UTC (`and_hms_opt(0, 0, 0)`, which always exists) and to its Unix
/// timestamp. The result is named `ymd_midnight_timestamp`; which texts chrono
/// accepts is left to that name.
#[verifier::external_body]
fn chrono_ymd_midnight(text: &str) -> (r: Option<i64>)
    ensures
        r == ymd_midnight_timestamp(text@),
{
    match chrono::NaiveDate::parse_from_str(text, "%Y-%m-%d") {
        Ok(day) => Some(day.and_hms_opt(0, 0, 0).unwrap().and_utc().timestamp()),
        Err(_) => None,
    }
}

/// Rust's `/` on integers: the quotient rounded toward zero.
pub open spec fn trunc_div(a: int, b: int) -> int {
    if a >= 0 {
        a / b
    } else {
        -((-a) / b)
    }
}

/// Rust's `%` on integers: the remainder, with the sign of `a`.
pub open spec fn trunc_rem(a: int, b: int) -> int {
    a - trunc_div(a, b) * b
}

/// The nanosecond part handed to chrono for a millisecond timestamp: the
/// remainder's nanoseconds, which a cast to `u32` wraps when it is negative.
pub open spec fn ts_nanos(ms: int) -> int {
    let r = trunc_rem(ms, 1000);
    if r >= 0 {
        r * 1_000_000
    } else {
        0x1_0000_0000 + r * 1_000_000
    }
}

/// The text of a millisecond timestamp: its UTC calendar day, or, where
/// chrono has no such instant, the decimal text of the milliseconds.
pub open spec fn ts_display(ms: i64) -> Seq<char> {
    match utc_date_text(trunc_div(ms as int, 1000) as i64, ts_nanos(ms as int) as u32) {
        Some(t) => t,
        None => int_text(ms as int),
    }
}

/// The UTC calendar day (`YYYY-MM-DD`) of a timestamp in milliseconds, or
/// the milliseconds themselves where chrono has no such instant (a negative
/// timestamp that is not a whole second always falls back, as its nanosecond
/// part wraps around).
pub fn fmt_ts_ms(ms: i64) -> (r: String)
    ensures
        r@ == ts_display(ms),
        ms < 0 && trunc_rem(ms as int, 1000) != 0 ==> r@ == int_text(ms as int),
        0 <= ms <= 8_000_000_000_000_000 ==> utc_date_text(
            trunc_div(ms as int, 1000) as i64,
            ts_nanos(ms as int) as u32,
        ) is Some,
{
    let secs = ms / 1000;
    let rem = ms % 1000;
    let nsecs: u32 = if rem >= 0 {
        (rem * 1_000_000) as u32
    } else {
        (0x1_0000_0000i64 + rem * 1_000_000) as u32
    };
    assert(secs == trunc_div(ms as int, 1000));
    assert(rem == trunc_rem(ms as int, 1000));
    assert(nsecs == ts_nanos(ms as int));
    match chrono_utc_date(secs, nsecs) {
        Some(day) => day,
        None => i64_text(ms),
    }
}

/// The Unix timestamp of midnight UTC on a `YYYY-MM-DD` option expiration
/// date, or `None` when no date is given or it does not read as one.
pub fn expiration_timestamp(date: Option<&str>) -> (r: Option<i64>)
    ensures
        r == match date {
            Some(d) => ymd_midnight_timestamp(d@),
            None => None,
        },
{
    match date {
        Some(d) => chrono_ymd_midnight(d),
        None => None,
    }
}

} // verus!
