//! Settings of a price-history request and of a multi-symbol download.
//!
//! A history request names its window either by a relative period or by an
//! explicit start (and optional end); choosing one clears the other. The
//! settings turn into the query string of `v8/finance/chart`. A download
//! carries the same settings for every symbol of its list.

use vstd::prelude::*;

use crate::error::YfError;
use crate::isin::strings_view;
use crate::request::{
    bool_str, bool_text, i64_text, push_param, query_view, signed_decimal, unix_now,
};
use crate::text::{chars_of, trim, trim_chars, string_of};
use crate::types::{interval_text, period_text, Interval, Period};

verus! {

/// Settings of one history request.
#[derive(Debug, Clone, Copy, PartialEq, Eq, Structural)]
pub struct HistoryParams {
    /// Relative window; exclusive with `start` / `end`.
    pub period: Option<Period>,
    /// Sampling interval.
    pub interval: Interval,
    /// Explicit start (UNIX seconds).
    pub start: Option<i64>,
    /// Explicit end (UNIX seconds).
    pub end: Option<i64>,
    /// Include pre/post market trades.
    pub prepost: bool,
    /// Scale OHLC by the adjusted close.
    pub auto_adjust: bool,
    /// Scale the series so the latest close equals the latest adjusted close.
    pub back_adjust: bool,
    /// Keep bars whose prices are all missing.
    pub keepna: bool,
    /// Round prices to 4 decimals.
    pub rounding: bool,
    /// Run the repair passes on the parsed history.
    pub repair: bool,
}

/// The settings of a fresh request: one month of daily bars, auto-adjusted.
pub open spec fn default_history() -> HistoryParams {
    HistoryParams {
        period: Some(Period::M1),
        interval: Interval::D1,
        start: None,
        end: None,
        prepost: false,
        auto_adjust: true,
        back_adjust: false,
        keepna: false,
        rounding: false,
        repair: false,
    }
}

impl HistoryParams {
    /// A window is named exactly one way: by a period, or by a start and/or
    /// an end.
    pub open spec fn wf(self) -> bool {
        (self.period is Some) == (self.start is None && self.end is None)
    }

    /// The settings of a fresh request (see [`default_history`]).
    pub fn new() -> (r: HistoryParams)
        ensures
            r == default_history(),
            r.wf(),
    {
        HistoryParams {
            period: Some(Period::M1),
            interval: Interval::D1,
            start: None,
            end: None,
            prepost: false,
            auto_adjust: true,
            back_adjust: false,
            keepna: false,
            rounding: false,
            repair: false,
        }
    }

    /// Use a relative period; clears `start` and `end`.
    pub fn period(self, period: Period) -> (r: HistoryParams)
        ensures
            r == (HistoryParams { period: Some(period), start: None, end: None, ..self }),
            r.wf(),
    {
        HistoryParams { period: Some(period), start: None, end: None, ..self }
    }

    /// Explicit start (UNIX seconds); clears `period`.
    pub fn start(self, ts_seconds: i64) -> (r: HistoryParams)
        ensures
            r == (HistoryParams { start: Some(ts_seconds), period: None, ..self }),
            r.wf(),
    {
        HistoryParams { start: Some(ts_seconds), period: None, ..self }
    }

    /// Explicit end (UNIX seconds); clears `period`.
    pub fn end(self, ts_seconds: i64) -> (r: HistoryParams)
        ensures
            r == (HistoryParams { end: Some(ts_seconds), period: None, ..self }),
            r.wf(),
    {
        HistoryParams { end: Some(ts_seconds), period: None, ..self }
    }

    /// Sampling interval.
    pub fn interval(self, interval: Interval) -> (r: HistoryParams)
        ensures
            r == (HistoryParams { interval, ..self }),
            self.wf() ==> r.wf(),
    {
        HistoryParams { interval, ..self }
    }

    /// Include pre/post market trades.
    pub fn prepost(self, on: bool) -> (r: HistoryParams)
        ensures
            r == (HistoryParams { prepost: on, ..self }),
            self.wf() ==> r.wf(),
    {
        HistoryParams { prepost: on, ..self }
    }

    /// Scale OHLC by the adjusted close.
    pub fn auto_adjust(self, on: bool) -> (r: HistoryParams)
        ensures
            r == (HistoryParams { auto_adjust: on, ..self }),
            self.wf() ==> r.wf(),
    {
        HistoryParams { auto_adjust: on, ..self }
    }

    /// Scale the series to the latest adjustment factor.
    pub fn back_adjust(self, on: bool) -> (r: HistoryParams)
        ensures
            r == (HistoryParams { back_adjust: on, ..self }),
            self.wf() ==> r.wf(),
    {
        HistoryParams { back_adjust: on, ..self }
    }

    /// Keep bars whose prices are all missing.
    pub fn keepna(self, on: bool) -> (r: HistoryParams)
        ensures
            r == (HistoryParams { keepna: on, ..self }),
            self.wf() ==> r.wf(),
    {
        HistoryParams { keepna: on, ..self }
    }

    /// Round prices to 4 decimals.
    pub fn rounding(self, on: bool) -> (r: HistoryParams)
        ensures
            r == (HistoryParams { rounding: on, ..self }),
            self.wf() ==> r.wf(),
    {
        HistoryParams { rounding: on, ..self }
    }

    /// Run the repair passes.
    pub fn repair(self, on: bool) -> (r: HistoryParams)
        ensures
            r == (HistoryParams { repair: on, ..self }),
            self.wf() ==> r.wf(),
    {
        HistoryParams { repair: on, ..self }
    }
}

/// The window part of a chart query, `None` when the settings name no
/// window that starts somewhere; an open end runs to `now`.
pub open spec fn chart_window(p: HistoryParams, now: int) -> Option<
    Seq<(Seq<char>, Seq<char>)>,
> {
    match p.period {
        Some(per) => Some(seq![("range"@, period_text(per))]),
        None => match p.start {
            Some(s) => match p.end {
                Some(e) => Some(seq![("period1"@, signed_decimal(s as int)), ("period2"@, signed_decimal(e as int))]),
                None => Some(seq![("period1"@, signed_decimal(s as int)), ("period2"@, signed_decimal(now))]),
            },
            None => None,
        },
    }
}

/// The query of `v8/finance/chart` for the settings, with `now` as the end
/// of an open window.
pub open spec fn chart_params(p: HistoryParams, now: int) -> Option<Seq<(Seq<char>, Seq<char>)>> {
    match chart_window(p, now) {
        Some(w) => Some(
            seq![
                ("interval"@, interval_text(p.interval)),
                ("includePrePost"@, bool_text(p.prepost)),
                ("events"@, "div,splits,capitalGains"@),
            ] + w,
        ),
        None => None,
    }
}

/// The message of a history request without a window start.
pub open spec fn no_window_message() -> Seq<char> {
    "history requires either period or start"@
}

impl HistoryParams {
    /// The chart query for these settings, an open window ending at `now`
    /// (UNIX seconds).
    pub fn chart_query_at(&self, now: i64) -> (r: Result<Vec<(String, String)>, YfError>)
        ensures
            match chart_params(*self, now as int) {
                Some(q) => r matches Ok(v) && query_view(v@) == q,
                None => r matches Err(YfError::InvalidArgument(m)) && m@ == no_window_message(),
            },
    {
        let mut q: Vec<(String, String)> = Vec::new();
        push_param(&mut q, "interval", self.interval.as_str().to_string());
        push_param(&mut q, "includePrePost", bool_str(self.prepost).to_string());
        push_param(&mut q, "events", "div,splits,capitalGains".to_string());
        let ghost base = query_view(q@);
        match self.period {
            Some(p) => {
                push_param(&mut q, "range", p.as_str().to_string());
            },
            None => match self.start {
                Some(s) => {
                    push_param(&mut q, "period1", i64_text(s));
                    match self.end {
                        Some(e) => {
                            push_param(&mut q, "period2", i64_text(e));
                        },
                        None => {
                            push_param(&mut q, "period2", i64_text(now));
                        },
                    }
                },
                None => {
                    return Err(YfError::invalid("history requires either period or start"));
                },
            },
        }
        assert(query_view(q@) =~= chart_params(*self, now as int).unwrap());
        Ok(q)
    }

    /// The chart query for these settings; an open window ends now.
    pub fn chart_query(&self) -> (r: Result<Vec<(String, String)>, YfError>)
        ensures
            exists|now: i64|
                #![trigger chart_params(*self, now as int)]
                match chart_params(*self, now as int) {
                    Some(q) => r matches Ok(v) && query_view(v@) == q,
                    None => r matches Err(YfError::InvalidArgument(m)) && m@
                        == no_window_message(),
                },
    {
        let open_end = self.period.is_none() && self.start.is_some() && self.end.is_none();
        let now: i64 = if open_end {
            unix_now()
        } else {
            0
        };
        let r = self.chart_query_at(now);
        assert(match chart_params(*self, now as int) {
            Some(q) => r matches Ok(v) && query_view(v@) == q,
            None => r matches Err(YfError::InvalidArgument(m)) && m@ == no_window_message(),
        });
        r
    }
}

/// Distance between two instants, in seconds.
pub open spec fn distance(a: i64, b: i64) -> int {
    if a >= b {
        a - b
    } else {
        b - a
    }
}

/// How a chart reply fails, checked in this order: an error payload becomes
/// [`YfError::Yahoo`] with its code and description; otherwise a reply with
/// no result becomes [`YfError::PricesMissing`]; otherwise it does not fail.
/// `error` holds the payload's code and description.
pub fn chart_failure(symbol: &str, error: Option<(String, String)>, has_result: bool) -> (r:
    Option<YfError>)
    ensures
        error matches Some((c, d)) ==> (r matches Some(YfError::Yahoo { symbol: s, code, description })
            && s@ == symbol@ && code@ == c@ && description@ == d@),
        error is None && !has_result ==> (r matches Some(YfError::PricesMissing { ticker, hint })
            && ticker@ == symbol@ && hint@ == "empty chart.result"@),
        error is None && has_result ==> r is None,
{
    match error {
        Some((code, description)) => Some(
            YfError::Yahoo { symbol: symbol.to_string(), code, description },
        ),
        None => if has_result {
            None
        } else {
            Some(
                YfError::PricesMissing {
                    ticker: symbol.to_string(),
                    hint: "empty chart.result".to_string(),
                },
            )
        },
    }
}

/// The symbol a history is reported under: the one the chart's metadata
/// names, else the one requested.
pub fn chart_symbol(meta_symbol: Option<String>, requested: &str) -> (r: String)
    ensures
        r@ == match meta_symbol {
            Some(m) => m@,
            None => requested@,
        },
{
    match meta_symbol {
        Some(m) => m,
        None => requested.to_string(),
    }
}

/// Index of the bar nearest to `ts` among bars at `times`; the first of
/// several equally near. Events are attached to that bar.
pub fn nearest_index(times: &[i64], ts: i64) -> (r: Option<usize>)
    ensures
        r is None <==> times@.len() == 0,
        r matches Some(i) ==> {
            &&& i < times@.len()
            &&& forall|j: int|
                0 <= j < times@.len() ==> distance(times@[i as int], ts) <= distance(
                    #[trigger] times@[j],
                    ts,
                )
            &&& forall|j: int|
                0 <= j < i ==> distance(times@[i as int], ts) < distance(#[trigger] times@[j], ts)
        },
{
    if times.len() == 0 {
        return None;
    }
    let mut best: usize = 0;
    let mut best_d: i128 = if times[0] >= ts {
        times[0] as i128 - ts as i128
    } else {
        ts as i128 - times[0] as i128
    };
    let mut k: usize = 1;
    while k < times.len()
        invariant
            1 <= k <= times@.len(),
            best < k,
            best_d == distance(times@[best as int], ts),
            forall|j: int| 0 <= j < k ==> best_d <= distance(#[trigger] times@[j], ts),
            forall|j: int| 0 <= j < best ==> best_d < distance(#[trigger] times@[j], ts),
        decreases times@.len() - k,
    {
        let d: i128 = if times[k] >= ts {
            times[k] as i128 - ts as i128
        } else {
            ts as i128 - times[k] as i128
        };
        if d < best_d {
            best = k;
            best_d = d;
        }
        k += 1;
    }
    Some(best)
}

/// `str::to_uppercase` of std: the Unicode uppercase mapping of a string.
pub uninterp spec fn unicode_upper(s: Seq<char>) -> Seq<char>;

/// `str::to_uppercase` of std.
#[verifier::external_body]
fn to_uppercase(s: &str) -> (r: String)
    ensures
        r@ == unicode_upper(s@),
{
    s.to_uppercase()
}

/// A symbol as a ticker holds it: trimmed, then upper-cased.
pub open spec fn symbol_text(s: Seq<char>) -> Seq<char> {
    unicode_upper(trim(s))
}

/// The symbol a ticker is made for: `s.trim().to_uppercase()`.
pub fn ticker_symbol(s: &str) -> (r: String)
    ensures
        r@ == symbol_text(s@),
{
    let cs = chars_of(s);
    let t = string_of(&trim_chars(&cs));
    to_uppercase(t.as_str())
}

/// A download's symbol list: each entry trimmed and upper-cased, empty
/// entries dropped, order kept.
pub open spec fn normalized_tickers(ts: Seq<Seq<char>>) -> Seq<Seq<char>>
    decreases ts.len(),
{
    if ts.len() == 0 {
        Seq::empty()
    } else {
        let rest = normalized_tickers(ts.drop_last());
        let u = symbol_text(ts.last());
        if u.len() > 0 {
            rest.push(u)
        } else {
            rest
        }
    }
}

/// Trims, upper-cases and drops empty entries of a symbol list.
pub fn normalize_tickers(tickers: Vec<String>) -> (r: Vec<String>)
    ensures
        strings_view(r@) == normalized_tickers(strings_view(tickers@)),
{
    let mut out: Vec<String> = Vec::new();
    let mut i: usize = 0;
    while i < tickers.len()
        invariant
            i <= tickers@.len(),
            strings_view(out@) == normalized_tickers(strings_view(tickers@.take(i as int))),
        decreases tickers@.len() - i,
    {
        let u = ticker_symbol(tickers[i].as_str());
        let ghost prev = out@;
        let nonempty = chars_of(u.as_str()).len() > 0;
        proof {
            let tv = strings_view(tickers@.take(i + 1));
            assert(tv.drop_last() =~= strings_view(tickers@.take(i as int)));
            assert(tv.last() == tickers@[i as int]@);
        }
        if nonempty {
            out.push(u);
            assert(strings_view(out@) =~= strings_view(prev).push(u@));
        }
        i += 1;
    }
    assert(tickers@.take(tickers@.len() as int) =~= tickers@);
    out
}

/// Settings of a multi-symbol download.
#[derive(Debug, Clone)]
pub struct DownloadParams {
    /// Normalized symbols, in the caller's order.
    pub tickers: Vec<String>,
    /// Settings applied to every symbol's history request.
    pub history: HistoryParams,
    /// Requests in flight at once; at least one.
    pub concurrency: usize,
}

/// Requests in flight at once when the caller does not say.
pub const DEFAULT_CONCURRENCY: usize = 8;

/// The message of a download without symbols.
pub open spec fn empty_download_message() -> Seq<char> {
    "download: empty ticker list"@
}

/// The settings one symbol's request gets from a download: those of the
/// download, applied to a fresh request the way the download applies them
/// (period, then start, then end, then the rest).
pub open spec fn applied(cfg: HistoryParams, b: HistoryParams) -> HistoryParams {
    let b1 = match cfg.period {
        Some(p) => HistoryParams { period: Some(p), start: None, end: None, ..b },
        None => b,
    };
    let b2 = match cfg.start {
        Some(s) => HistoryParams { start: Some(s), period: None, ..b1 },
        None => b1,
    };
    let b3 = match cfg.end {
        Some(e) => HistoryParams { end: Some(e), period: None, ..b2 },
        None => b2,
    };
    HistoryParams {
        interval: cfg.interval,
        prepost: cfg.prepost,
        auto_adjust: cfg.auto_adjust,
        back_adjust: cfg.back_adjust,
        keepna: cfg.keepna,
        rounding: cfg.rounding,
        repair: cfg.repair,
        ..b3
    }
}

impl DownloadParams {
    pub open spec fn wf(&self) -> bool {
        self.history.wf() && self.concurrency >= 1
    }

    /// A download of `tickers` (normalized) with default settings.
    pub fn new(tickers: Vec<String>) -> (r: DownloadParams)
        ensures
            strings_view(r.tickers@) == normalized_tickers(strings_view(tickers@)),
            r.history == default_history(),
            r.concurrency == DEFAULT_CONCURRENCY,
            r.wf(),
    {
        DownloadParams {
            tickers: normalize_tickers(tickers),
            history: HistoryParams::new(),
            concurrency: DEFAULT_CONCURRENCY,
        }
    }

    /// Requests in flight at once; zero counts as one.
    pub fn concurrency(self, n: usize) -> (r: DownloadParams)
        ensures
            r.concurrency == (if n >= 1 {
                n
            } else {
                1
            }),
            r.history == self.history,
            r.tickers@ == self.tickers@,
            self.history.wf() ==> r.wf(),
    {
        let c = if n >= 1 {
            n
        } else {
            1
        };
        DownloadParams { concurrency: c, ..self }
    }

    /// A download needs at least one symbol.
    pub fn check(&self) -> (r: Result<(), YfError>)
        ensures
            r is Ok <==> self.tickers@.len() > 0,
            r matches Err(e) ==> e matches YfError::InvalidArgument(m) && m@
                == empty_download_message(),
    {
        if self.tickers.len() == 0 {
            Err(YfError::invalid("download: empty ticker list"))
        } else {
            Ok(())
        }
    }

    /// The settings of one symbol's request: the download's settings
    /// applied to `b`, as [`applied`] says.
    pub fn apply_to(&self, b: HistoryParams) -> (r: HistoryParams)
        ensures
            r == applied(self.history, b),
            b.wf() ==> r.wf(),
    {
        let cfg = self.history;
        let b1 = match cfg.period {
            Some(p) => b.period(p),
            None => b,
        };
        let b2 = match cfg.start {
            Some(s) => b1.start(s),
            None => b1,
        };
        let b3 = match cfg.end {
            Some(e) => b2.end(e),
            None => b2,
        };
        HistoryParams {
            interval: cfg.interval,
            prepost: cfg.prepost,
            auto_adjust: cfg.auto_adjust,
            back_adjust: cfg.back_adjust,
            keepna: cfg.keepna,
            rounding: cfg.rounding,
            repair: cfg.repair,
            ..b3
        }
    }
}

/// Every symbol of a download is requested with exactly the download's
/// settings: applying well-formed download settings to a fresh request
/// gives those settings back.
pub proof fn download_settings_carry_over(cfg: HistoryParams)
    requires
        cfg.wf(),
    ensures
        applied(cfg, default_history()) == cfg,
{
}

} // verus!
