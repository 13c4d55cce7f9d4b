//! Lookback ranges and bar intervals as the tools' arguments name them.

use vstd::prelude::*;
use crate::text::text_eq;

verus! {

/// A lookback range of price history.
#[derive(Clone, Copy, Debug, PartialEq, Eq, Structural)]
pub enum Range {
    D1,
    D5,
    M1,
    M3,
    M6,
    Ytd,
    Y1,
    Y2,
    Y5,
    Y10,
    Max,
}

/// A bar interval of price history.
#[derive(Clone, Copy, Debug, PartialEq, Eq, Structural)]
pub enum Interval {
    I1m,
    I2m,
    I5m,
    I15m,
    I30m,
    I1h,
    D1,
    D5,
    W1,
    M1,
    M3,
}

/// The code by which the tools' arguments name a range.
pub open spec fn range_code(r: Range) -> Seq<char> {
    match r {
        Range::D1 => "1d"@,
        Range::D5 => "5d"@,
        Range::M1 => "1mo"@,
        Range::M3 => "3mo"@,
        Range::M6 => "6mo"@,
        Range::Ytd => "ytd"@,
        Range::Y1 => "1y"@,
        Range::Y2 => "2y"@,
        Range::Y5 => "5y"@,
        Range::Y10 => "10y"@,
        Range::Max => "max"@,
    }
}

/// The code by which the tools' arguments name an interval.
pub open spec fn interval_code(i: Interval) -> Seq<char> {
    match i {
        Interval::I1m => "1m"@,
        Interval::I2m => "2m"@,
        Interval::I5m => "5m"@,
        Interval::I15m => "15m"@,
        Interval::I30m => "30m"@,
        Interval::I1h => "1h"@,
        Interval::D1 => "1d"@,
        Interval::D5 => "5d"@,
        Interval::W1 => "1wk"@,
        Interval::M1 => "1mo"@,
        Interval::M3 => "3mo"@,
    }
}

/// The range a code names; six months for a code that names none.
pub open spec fn range_of_code(s: Seq<char>) -> Range {
    if s == "1d"@ {
        Range::D1
    } else if s == "5d"@ {
        Range::D5
    } else if s == "1mo"@ {
        Range::M1
    } else if s == "3mo"@ {
        Range::M3
    } else if s == "6mo"@ {
        Range::M6
    } else if s == "ytd"@ {
        Range::Ytd
    } else if s == "1y"@ {
        Range::Y1
    } else if s == "2y"@ {
        Range::Y2
    } else if s == "5y"@ {
        Range::Y5
    } else if s == "10y"@ {
        Range::Y10
    } else if s == "max"@ {
        Range::Max
    } else {
        Range::M6
    }
}

/// The interval a code names, if any.
pub open spec fn interval_of_code(s: Seq<char>) -> Option<Interval> {
    if s == "1m"@ {
        Some(Interval::I1m)
    } else if s == "2m"@ {
        Some(Interval::I2m)
    } else if s == "5m"@ {
        Some(Interval::I5m)
    } else if s == "15m"@ {
        Some(Interval::I15m)
    } else if s == "30m"@ {
        Some(Interval::I30m)
    } else if s == "1h"@ {
        Some(Interval::I1h)
    } else if s == "1d"@ {
        Some(Interval::D1)
    } else if s == "5d"@ {
        Some(Interval::D5)
    } else if s == "1wk"@ {
        Some(Interval::W1)
    } else if s == "1mo"@ {
        Some(Interval::M1)
    } else if s == "3mo"@ {
        Some(Interval::M3)
    } else {
        None
    }
}

/// The range an optional argument asks for: the documented default of six
/// months when it is absent, and six months for a code that names no range.
pub open spec fn parse_range_spec(s: Option<Seq<char>>) -> Range {
    match s {
        Some(code) => range_of_code(code),
        None => Range::M6,
    }
}

/// The interval an optional argument asks for: one day when it is absent,
/// `None` for a code that names no interval.
pub open spec fn parse_interval_spec(s: Option<Seq<char>>) -> Option<Interval> {
    match s {
        Some(code) => interval_of_code(code),
        None => Some(Interval::D1),
    }
}

/// The view of an optional text argument.
pub open spec fn opt_view(s: Option<&str>) -> Option<Seq<char>> {
    match s {
        Some(t) => Some(t@),
        None => None,
    }
}

/// Reads a range argument (`1d`, `5d`, `1mo`, `3mo`, `6mo`, `ytd`, `1y`,
/// `2y`, `5y`, `10y`, `max`); six months when absent or unknown.
pub fn parse_range(s: Option<&str>) -> (r: Range)
    ensures
        r == parse_range_spec(opt_view(s)),
{
    match s {
        None => Range::M6,
        Some(code) => {
            if text_eq(code, "1d") {
                Range::D1
            } else if text_eq(code, "5d") {
                Range::D5
            } else if text_eq(code, "1mo") {
                Range::M1
            } else if text_eq(code, "3mo") {
                Range::M3
            } else if text_eq(code, "6mo") {
                Range::M6
            } else if text_eq(code, "ytd") {
                Range::Ytd
            } else if text_eq(code, "1y") {
                Range::Y1
            } else if text_eq(code, "2y") {
                Range::Y2
            } else if text_eq(code, "5y") {
                Range::Y5
            } else if text_eq(code, "10y") {
                Range::Y10
            } else if text_eq(code, "max") {
                Range::Max
            } else {
                Range::M6
            }
        },
    }
}

/// Reads an interval argument (`1m`, `2m`, `5m`, `15m`, `30m`, `1h`, `1d`,
/// `5d`, `1wk`, `1mo`, `3mo`); one day when absent, `None` when unknown.
pub fn parse_interval(s: Option<&str>) -> (r: Option<Interval>)
    ensures
        r == parse_interval_spec(opt_view(s)),
{
    match s {
        None => Some(Interval::D1),
        Some(code) => {
            if text_eq(code, "1m") {
                Some(Interval::I1m)
            } else if text_eq(code, "2m") {
                Some(Interval::I2m)
            } else if text_eq(code, "5m") {
                Some(Interval::I5m)
            } else if text_eq(code, "15m") {
                Some(Interval::I15m)
            } else if text_eq(code, "30m") {
                Some(Interval::I30m)
            } else if text_eq(code, "1h") {
                Some(Interval::I1h)
            } else if text_eq(code, "1d") {
                Some(Interval::D1)
            } else if text_eq(code, "5d") {
                Some(Interval::D5)
            } else if text_eq(code, "1wk") {
                Some(Interval::W1)
            } else if text_eq(code, "1mo") {
                Some(Interval::M1)
            } else if text_eq(code, "3mo") {
                Some(Interval::M3)
            } else {
                None
            }
        },
    }
}

/// Every range is asked for by its code: reading the code of a range gives
/// that range back.
pub proof fn lemma_range_codes_round_trip(r: Range)
    ensures
        parse_range_spec(Some(range_code(r))) == r,
{
    reveal_strlit("1d");
    assert("1d"@.len() == 2);
    assert("1d"@[0] == '1');
    assert("1d"@[1] == 'd');
    reveal_strlit("5d");
    assert("5d"@.len() == 2);
    assert("5d"@[0] == '5');
    assert("5d"@[1] == 'd');
    reveal_strlit("1mo");
    assert("1mo"@.len() == 3);
    assert("1mo"@[0] == '1');
    assert("1mo"@[1] == 'm');
    assert("1mo"@[2] == 'o');
    reveal_strlit("3mo");
    assert("3mo"@.len() == 3);
    assert("3mo"@[0] == '3');
    assert("3mo"@[1] == 'm');
    assert("3mo"@[2] == 'o');
    reveal_strlit("6mo");
    assert("6mo"@.len() == 3);
    assert("6mo"@[0] == '6');
    assert("6mo"@[1] == 'm');
    assert("6mo"@[2] == 'o');
    reveal_strlit("ytd");
    assert("ytd"@.len() == 3);
    assert("ytd"@[0] == 'y');
    assert("ytd"@[1] == 't');
    assert("ytd"@[2] == 'd');
    reveal_strlit("1y");
    assert("1y"@.len() == 2);
    assert("1y"@[0] == '1');
    assert("1y"@[1] == 'y');
    reveal_strlit("2y");
    assert("2y"@.len() == 2);
    assert("2y"@[0] == '2');
    assert("2y"@[1] == 'y');
    reveal_strlit("5y");
    assert("5y"@.len() == 2);
    assert("5y"@[0] == '5');
    assert("5y"@[1] == 'y');
    reveal_strlit("10y");
    assert("10y"@.len() == 3);
    assert("10y"@[0] == '1');
    assert("10y"@[1] == '0');
    assert("10y"@[2] == 'y');
    reveal_strlit("max");
    assert("max"@.len() == 3);
    assert("max"@[0] == 'm');
    assert("max"@[1] == 'a');
    assert("max"@[2] == 'x');
}

/// Every interval is asked for by its code: reading the code of an interval
/// gives that interval back.
pub proof fn lemma_interval_codes_round_trip(i: Interval)
    ensures
        parse_interval_spec(Some(interval_code(i))) == Some(i),
{
    reveal_strlit("1m");
    assert("1m"@.len() == 2);
    assert("1m"@[0] == '1');
    assert("1m"@[1] == 'm');
    reveal_strlit("2m");
    assert("2m"@.len() == 2);
    assert("2m"@[0] == '2');
    assert("2m"@[1] == 'm');
    reveal_strlit("5m");
    assert("5m"@.len() == 2);
    assert("5m"@[0] == '5');
    assert("5m"@[1] == 'm');
    reveal_strlit("15m");
    assert("15m"@.len() == 3);
    assert("15m"@[0] == '1');
    assert("15m"@[1] == '5');
    assert("15m"@[2] == 'm');
    reveal_strlit("30m");
    assert("30m"@.len() == 3);
    assert("30m"@[0] == '3');
    assert("30m"@[1] == '0');
    assert("30m"@[2] == 'm');
    reveal_strlit("1h");
    assert("1h"@.len() == 2);
    assert("1h"@[0] == '1');
    assert("1h"@[1] == 'h');
    reveal_strlit("1d");
    assert("1d"@.len() == 2);
    assert("1d"@[0] == '1');
    assert("1d"@[1] == 'd');
    reveal_strlit("5d");
    assert("5d"@.len() == 2);
    assert("5d"@[0] == '5');
    assert("5d"@[1] == 'd');
    reveal_strlit("1wk");
    assert("1wk"@.len() == 3);
    assert("1wk"@[0] == '1');
    assert("1wk"@[1] == 'w');
    assert("1wk"@[2] == 'k');
    reveal_strlit("1mo");
    assert("1mo"@.len() == 3);
    assert("1mo"@[0] == '1');
    assert("1mo"@[1] == 'm');
    assert("1mo"@[2] == 'o');
    reveal_strlit("3mo");
    assert("3mo"@.len() == 3);
    assert("3mo"@[0] == '3');
    assert("3mo"@[1] == 'm');
    assert("3mo"@[2] == 'o');
}

} // verus!
