//! Shared enums: [`Period`] and [`Interval`].

use vstd::prelude::*;

use crate::error::YfError;
use crate::text::{chars_eq, chars_of};

verus! {

/// A relative time window passed to Yahoo's chart endpoint.
///
/// Mutually exclusive with explicit `start`/`end` timestamps.
#[derive(Debug, Clone, Copy, PartialEq, Eq, Hash, Structural)]
pub enum Period {
    /// 1 day.
    D1,
    /// 5 days.
    D5,
    /// 1 month.
    M1,
    /// 3 months.
    M3,
    /// 6 months.
    M6,
    /// 1 year.
    Y1,
    /// 2 years.
    Y2,
    /// 5 years.
    Y5,
    /// 10 years.
    Y10,
    /// Year-to-date.
    Ytd,
    /// All available history.
    Max,
}

/// Wire-format name of each period.
pub open spec fn period_text(p: Period) -> Seq<char> {
    match p {
        Period::D1 => "1d"@,
        Period::D5 => "5d"@,
        Period::M1 => "1mo"@,
        Period::M3 => "3mo"@,
        Period::M6 => "6mo"@,
        Period::Y1 => "1y"@,
        Period::Y2 => "2y"@,
        Period::Y5 => "5y"@,
        Period::Y10 => "10y"@,
        Period::Ytd => "ytd"@,
        Period::Max => "max"@,
    }
}

/// The period whose wire-format name is `t`, if any.
pub open spec fn spec_parse_period(t: Seq<char>) -> Option<Period> {
    if t == "1d"@ {
        Some(Period::D1)
    } else if t == "5d"@ {
        Some(Period::D5)
    } else if t == "1mo"@ {
        Some(Period::M1)
    } else if t == "3mo"@ {
        Some(Period::M3)
    } else if t == "6mo"@ {
        Some(Period::M6)
    } else if t == "1y"@ {
        Some(Period::Y1)
    } else if t == "2y"@ {
        Some(Period::Y2)
    } else if t == "5y"@ {
        Some(Period::Y5)
    } else if t == "10y"@ {
        Some(Period::Y10)
    } else if t == "ytd"@ {
        Some(Period::Ytd)
    } else if t == "max"@ {
        Some(Period::Max)
    } else {
        None
    }
}

/// Message of the error for an unknown name: ``<what> `<name>` ``.
pub open spec fn unknown_message(what: Seq<char>, t: Seq<char>) -> Seq<char> {
    "unknown "@ + what + " `"@ + t + "`"@
}

fn unknown_error(what: &str, t: &str) -> (r: YfError)
    ensures
        r matches YfError::InvalidArgument(m) && m@ == unknown_message(what@, t@),
{
    let mut m = String::from_str("unknown ");
    m.append(what);
    m.append(" `");
    m.append(t);
    m.append("`");
    YfError::InvalidArgument(m)
}

fn text_is(v: &Vec<char>, lit: &str) -> (r: bool)
    ensures
        r == (v@ == lit@),
{
    let l = chars_of(lit);
    chars_eq(v, &l)
}

impl Period {
    /// Wire-format string accepted by Yahoo (e.g. `"1mo"`).
    pub fn as_str(self) -> (r: &'static str)
        ensures
            r@ == period_text(self),
    {
        match self {
            Period::D1 => "1d",
            Period::D5 => "5d",
            Period::M1 => "1mo",
            Period::M3 => "3mo",
            Period::M6 => "6mo",
            Period::Y1 => "1y",
            Period::Y2 => "2y",
            Period::Y5 => "5y",
            Period::Y10 => "10y",
            Period::Ytd => "ytd",
            Period::Max => "max",
        }
    }

    /// Parse a wire-format name (`"1d"`, `"1mo"`, …, `"max"`).
    pub fn from_str(s: &str) -> (r: Result<Period, YfError>)
        ensures
            match r {
                Ok(p) => spec_parse_period(s@) == Some(p),
                Err(e) => spec_parse_period(s@) is None && (e matches YfError::InvalidArgument(m)
                    && m@ == unknown_message("period"@, s@)),
            },
    {
        let v = chars_of(s);
        if text_is(&v, "1d") {
            Ok(Period::D1)
        } else if text_is(&v, "5d") {
            Ok(Period::D5)
        } else if text_is(&v, "1mo") {
            Ok(Period::M1)
        } else if text_is(&v, "3mo") {
            Ok(Period::M3)
        } else if text_is(&v, "6mo") {
            Ok(Period::M6)
        } else if text_is(&v, "1y") {
            Ok(Period::Y1)
        } else if text_is(&v, "2y") {
            Ok(Period::Y2)
        } else if text_is(&v, "5y") {
            Ok(Period::Y5)
        } else if text_is(&v, "10y") {
            Ok(Period::Y10)
        } else if text_is(&v, "ytd") {
            Ok(Period::Ytd)
        } else if text_is(&v, "max") {
            Ok(Period::Max)
        } else {
            Err(unknown_error("period", s))
        }
    }
}

/// Every period's name reads back as that period.
pub proof fn period_round_trip(p: Period)
    ensures
        spec_parse_period(period_text(p)) == Some(p),
{
    reveal_strlit("1d");
    reveal_strlit("5d");
    reveal_strlit("1mo");
    reveal_strlit("3mo");
    reveal_strlit("6mo");
    reveal_strlit("1y");
    reveal_strlit("2y");
    reveal_strlit("5y");
    reveal_strlit("10y");
    reveal_strlit("ytd");
    reveal_strlit("max");
    assert("1d"@.len() == 2 && "1d"@[0] == '1' && "1d"@[1] == 'd');
    assert("5d"@.len() == 2 && "5d"@[0] == '5' && "5d"@[1] == 'd');
    assert("1mo"@.len() == 3 && "1mo"@[0] == '1' && "1mo"@[1] == 'm' && "1mo"@[2] == 'o');
    assert("3mo"@.len() == 3 && "3mo"@[0] == '3' && "3mo"@[1] == 'm' && "3mo"@[2] == 'o');
    assert("6mo"@.len() == 3 && "6mo"@[0] == '6' && "6mo"@[1] == 'm' && "6mo"@[2] == 'o');
    assert("1y"@.len() == 2 && "1y"@[0] == '1' && "1y"@[1] == 'y');
    assert("2y"@.len() == 2 && "2y"@[0] == '2' && "2y"@[1] == 'y');
    assert("5y"@.len() == 2 && "5y"@[0] == '5' && "5y"@[1] == 'y');
    assert("10y"@.len() == 3 && "10y"@[0] == '1' && "10y"@[1] == '0' && "10y"@[2] == 'y');
    assert("ytd"@.len() == 3 && "ytd"@[0] == 'y' && "ytd"@[1] == 't' && "ytd"@[2] == 'd');
    assert("max"@.len() == 3 && "max"@[0] == 'm' && "max"@[1] == 'a' && "max"@[2] == 'x');
}

/// Only the names of periods parse, and each parses to the period it names.
pub proof fn period_parse_only_names(t: Seq<char>)
    ensures
        spec_parse_period(t) matches Some(p) ==> t == period_text(p),
{
}

/// Sampling interval for the chart endpoint.
///
/// Note: Yahoo restricts intraday intervals to recent history only. For example,
/// `1m` is limited to the last 7 days. Combining a long [`Period`] with a small
/// `Interval` may yield [`YfError::InvalidPeriod`].
#[derive(Debug, Clone, Copy, PartialEq, Eq, Hash, Structural)]
pub enum Interval {
    /// 1 minute.
    M1,
    /// 2 minutes.
    M2,
    /// 5 minutes.
    M5,
    /// 15 minutes.
    M15,
    /// 30 minutes.
    M30,
    /// 60 minutes.
    M60,
    /// 90 minutes.
    M90,
    /// 1 hour (alias of `60m`).
    H1,
    /// 1 day.
    D1,
    /// 5 days.
    D5,
    /// 1 week.
    W1,
    /// 1 month.
    Mo1,
    /// 3 months.
    Mo3,
}

/// Wire-format name of each interval.
pub open spec fn interval_text(i: Interval) -> Seq<char> {
    match i {
        Interval::M1 => "1m"@,
        Interval::M2 => "2m"@,
        Interval::M5 => "5m"@,
        Interval::M15 => "15m"@,
        Interval::M30 => "30m"@,
        Interval::M60 => "60m"@,
        Interval::M90 => "90m"@,
        Interval::H1 => "1h"@,
        Interval::D1 => "1d"@,
        Interval::D5 => "5d"@,
        Interval::W1 => "1wk"@,
        Interval::Mo1 => "1mo"@,
        Interval::Mo3 => "3mo"@,
    }
}

/// The interval whose wire-format name is `t`, if any.
pub open spec fn spec_parse_interval(t: Seq<char>) -> Option<Interval> {
    if t == "1m"@ {
        Some(Interval::M1)
    } else if t == "2m"@ {
        Some(Interval::M2)
    } else if t == "5m"@ {
        Some(Interval::M5)
    } else if t == "15m"@ {
        Some(Interval::M15)
    } else if t == "30m"@ {
        Some(Interval::M30)
    } else if t == "60m"@ {
        Some(Interval::M60)
    } else if t == "90m"@ {
        Some(Interval::M90)
    } else if t == "1h"@ {
        Some(Interval::H1)
    } else if t == "1d"@ {
        Some(Interval::D1)
    } else if t == "5d"@ {
        Some(Interval::D5)
    } else if t == "1wk"@ {
        Some(Interval::W1)
    } else if t == "1mo"@ {
        Some(Interval::Mo1)
    } else if t == "3mo"@ {
        Some(Interval::Mo3)
    } else {
        None
    }
}

/// Intervals that sample within a trading day.
pub open spec fn spec_is_intraday(i: Interval) -> bool {
    match i {
        Interval::M1 | Interval::M2 | Interval::M5 | Interval::M15 | Interval::M30
        | Interval::M60 | Interval::M90 | Interval::H1 => true,
        _ => false,
    }
}

impl Interval {
    /// Wire-format string accepted by Yahoo (e.g. `"1d"`).
    pub fn as_str(self) -> (r: &'static str)
        ensures
            r@ == interval_text(self),
    {
        match self {
            Interval::M1 => "1m",
            Interval::M2 => "2m",
            Interval::M5 => "5m",
            Interval::M15 => "15m",
            Interval::M30 => "30m",
            Interval::M60 => "60m",
            Interval::M90 => "90m",
            Interval::H1 => "1h",
            Interval::D1 => "1d",
            Interval::D5 => "5d",
            Interval::W1 => "1wk",
            Interval::Mo1 => "1mo",
            Interval::Mo3 => "3mo",
        }
    }

    /// Whether the interval samples *within* a trading day.
    pub fn is_intraday(self) -> (r: bool)
        ensures
            r == spec_is_intraday(self),
    {
        match self {
            Interval::M1 | Interval::M2 | Interval::M5 | Interval::M15 | Interval::M30
            | Interval::M60 | Interval::M90 | Interval::H1 => true,
            _ => false,
        }
    }

    /// Parse a wire-format name (`"1m"`, `"1h"`, …, `"3mo"`).
    pub fn from_str(s: &str) -> (r: Result<Interval, YfError>)
        ensures
            match r {
                Ok(i) => spec_parse_interval(s@) == Some(i),
                Err(e) => spec_parse_interval(s@) is None && (e matches YfError::InvalidArgument(m)
                    && m@ == unknown_message("interval"@, s@)),
            },
    {
        let v = chars_of(s);
        if text_is(&v, "1m") {
            Ok(Interval::M1)
        } else if text_is(&v, "2m") {
            Ok(Interval::M2)
        } else if text_is(&v, "5m") {
            Ok(Interval::M5)
        } else if text_is(&v, "15m") {
            Ok(Interval::M15)
        } else if text_is(&v, "30m") {
            Ok(Interval::M30)
        } else if text_is(&v, "60m") {
            Ok(Interval::M60)
        } else if text_is(&v, "90m") {
            Ok(Interval::M90)
        } else if text_is(&v, "1h") {
            Ok(Interval::H1)
        } else if text_is(&v, "1d") {
            Ok(Interval::D1)
        } else if text_is(&v, "5d") {
            Ok(Interval::D5)
        } else if text_is(&v, "1wk") {
            Ok(Interval::W1)
        } else if text_is(&v, "1mo") {
            Ok(Interval::Mo1)
        } else if text_is(&v, "3mo") {
            Ok(Interval::Mo3)
        } else {
            Err(unknown_error("interval", s))
        }
    }
}

/// Every interval's name reads back as that interval.
pub proof fn interval_round_trip(i: Interval)
    ensures
        spec_parse_interval(interval_text(i)) == Some(i),
{
    reveal_strlit("1m");
    reveal_strlit("2m");
    reveal_strlit("5m");
    reveal_strlit("15m");
    reveal_strlit("30m");
    reveal_strlit("60m");
    reveal_strlit("90m");
    reveal_strlit("1h");
    reveal_strlit("1d");
    reveal_strlit("5d");
    reveal_strlit("1wk");
    reveal_strlit("1mo");
    reveal_strlit("3mo");
    assert("1m"@.len() == 2 && "1m"@[0] == '1' && "1m"@[1] == 'm');
    assert("2m"@.len() == 2 && "2m"@[0] == '2' && "2m"@[1] == 'm');
    assert("5m"@.len() == 2 && "5m"@[0] == '5' && "5m"@[1] == 'm');
    assert("15m"@.len() == 3 && "15m"@[0] == '1' && "15m"@[1] == '5' && "15m"@[2] == 'm');
    assert("30m"@.len() == 3 && "30m"@[0] == '3' && "30m"@[1] == '0' && "30m"@[2] == 'm');
    assert("60m"@.len() == 3 && "60m"@[0] == '6' && "60m"@[1] == '0' && "60m"@[2] == 'm');
    assert("90m"@.len() == 3 && "90m"@[0] == '9' && "90m"@[1] == '0' && "90m"@[2] == 'm');
    assert("1h"@.len() == 2 && "1h"@[0] == '1' && "1h"@[1] == 'h');
    assert("1d"@.len() == 2 && "1d"@[0] == '1' && "1d"@[1] == 'd');
    assert("5d"@.len() == 2 && "5d"@[0] == '5' && "5d"@[1] == 'd');
    assert("1wk"@.len() == 3 && "1wk"@[0] == '1' && "1wk"@[1] == 'w' && "1wk"@[2] == 'k');
    assert("1mo"@.len() == 3 && "1mo"@[0] == '1' && "1mo"@[1] == 'm' && "1mo"@[2] == 'o');
    assert("3mo"@.len() == 3 && "3mo"@[0] == '3' && "3mo"@[1] == 'm' && "3mo"@[2] == 'o');

}

/// Only the names of intervals parse, and each parses to the interval it names.
pub proof fn interval_parse_only_names(t: Seq<char>)
    ensures
        spec_parse_interval(t) matches Some(i) ==> t == interval_text(i),
{
}

impl std::str::FromStr for Period {
    type Err = YfError;

    fn from_str(s: &str) -> (r: Result<Self, Self::Err>)
        ensures
            match r {
                Ok(p) => spec_parse_period(s@) == Some(p),
                Err(e) => spec_parse_period(s@) is None && (e matches YfError::InvalidArgument(m)
                    && m@ == unknown_message("period"@, s@)),
            },
    {
        Period::from_str(s)
    }
}

impl std::str::FromStr for Interval {
    type Err = YfError;

    fn from_str(s: &str) -> (r: Result<Self, Self::Err>)
        ensures
            match r {
                Ok(i) => spec_parse_interval(s@) == Some(i),
                Err(e) => spec_parse_interval(s@) is None && (e matches YfError::InvalidArgument(m)
                    && m@ == unknown_message("interval"@, s@)),
            },
    {
        Interval::from_str(s)
    }
}

} // verus!
