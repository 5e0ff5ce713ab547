use yfinance::error::YfError;
use yfinance::history::{
    chart_failure, chart_symbol, nearest_index, normalize_tickers, ticker_symbol, DownloadParams, HistoryParams,
};
use yfinance::types::{Interval, Period};

fn pairs(q: &[(String, String)]) -> Vec<(&str, &str)> {
    q.iter().map(|(k, v)| (k.as_str(), v.as_str())).collect()
}

#[test]
fn default_history_is_one_month_daily() {
    let p = HistoryParams::new();
    assert_eq!(p.period, Some(Period::M1));
    assert_eq!(p.interval, Interval::D1);
    assert!(p.auto_adjust);
    assert!(!p.prepost && !p.back_adjust && !p.keepna && !p.rounding && !p.repair);
    let q = p.chart_query_at(0).unwrap();
    assert_eq!(
        pairs(&q),
        vec![
            ("interval", "1d"),
            ("includePrePost", "false"),
            ("events", "div,splits,capitalGains"),
            ("range", "1mo"),
        ]
    );
}

#[test]
fn explicit_window_replaces_period() {
    let p = HistoryParams::new().period(Period::Y5).start(1_600_000_000).end(1_700_000_000);
    assert_eq!(p.period, None);
    let q = p.interval(Interval::H1).prepost(true).chart_query_at(0).unwrap();
    assert_eq!(
        pairs(&q),
        vec![
            ("interval", "1h"),
            ("includePrePost", "true"),
            ("events", "div,splits,capitalGains"),
            ("period1", "1600000000"),
            ("period2", "1700000000"),
        ]
    );
}

#[test]
fn open_window_ends_now() {
    let p = HistoryParams::new().start(-86_400);
    let q = p.chart_query_at(1_234).unwrap();
    assert_eq!(&pairs(&q)[3..], &[("period1", "-86400"), ("period2", "1234")]);
    let live = p.chart_query().unwrap();
    assert!(live[4].1.parse::<i64>().unwrap() > 1_700_000_000);
}

#[test]
fn period_after_start_clears_window() {
    let p = HistoryParams::new().start(5).end(9).period(Period::D5);
    assert_eq!((p.start, p.end, p.period), (None, None, Some(Period::D5)));
}

#[test]
fn end_without_start_is_rejected() {
    let p = HistoryParams::new().end(1_700_000_000);
    match p.chart_query_at(0) {
        Err(YfError::InvalidArgument(m)) => assert_eq!(m, "history requires either period or start"),
        other => panic!("unexpected {:?}", other),
    }
    assert!(p.chart_query().is_err());
}

#[test]
fn nearest_bar_is_first_of_equals() {
    assert_eq!(nearest_index(&[], 5), None);
    assert_eq!(nearest_index(&[10, 20, 30], 21), Some(1));
    assert_eq!(nearest_index(&[10, 20, 30], 15), Some(0));
    assert_eq!(nearest_index(&[10, 20, 30], 1_000), Some(2));
    assert_eq!(nearest_index(&[i64::MIN, i64::MAX], 0), Some(1));
    assert_eq!(nearest_index(&[i64::MAX, i64::MIN], -1), Some(1));
}

#[test]
fn ticker_symbols_are_trimmed_and_uppercased() {
    assert_eq!(ticker_symbol("  aapl "), "AAPL");
    assert_eq!(ticker_symbol("brk.b"), "BRK.B");
    assert_eq!(ticker_symbol("straße"), "STRASSE");
}

#[test]
fn download_list_is_normalized() {
    let v = normalize_tickers(vec![" aapl".into(), "".into(), "  ".into(), "msft\n".into()]);
    assert_eq!(v, vec!["AAPL".to_string(), "MSFT".to_string()]);
}

#[test]
fn download_defaults_and_checks() {
    let d = DownloadParams::new(vec!["spy".into()]);
    assert_eq!(d.tickers, vec!["SPY".to_string()]);
    assert_eq!(d.concurrency, 8);
    assert_eq!(d.history, HistoryParams::new());
    assert!(d.check().is_ok());
    assert_eq!(d.concurrency(0).concurrency, 1);
    let empty = DownloadParams::new(vec![" ".into()]);
    match empty.check() {
        Err(YfError::InvalidArgument(m)) => assert_eq!(m, "download: empty ticker list"),
        other => panic!("unexpected {:?}", other),
    }
}

#[test]
fn download_settings_reach_each_symbol() {
    let mut d = DownloadParams::new(vec!["AAPL".into()]);
    d.history = HistoryParams::new().start(100).interval(Interval::W1).rounding(true);
    let one = d.apply_to(HistoryParams::new());
    assert_eq!(one, d.history);
    d.history = HistoryParams::new().period(Period::Max).repair(true);
    assert_eq!(d.apply_to(HistoryParams::new()), d.history);
}

#[test]
fn chart_error_comes_before_missing_result() {
    match chart_failure("AAPL", Some(("Not Found".to_string(), "No data".to_string())), false) {
        Some(YfError::Yahoo { symbol, code, description }) => {
            assert_eq!((symbol.as_str(), code.as_str(), description.as_str()), ("AAPL", "Not Found", "No data"));
        }
        other => panic!("unexpected {other:?}"),
    }
    match chart_failure("AAPL", None, false) {
        Some(YfError::PricesMissing { ticker, hint }) => {
            assert_eq!((ticker.as_str(), hint.as_str()), ("AAPL", "empty chart.result"));
        }
        other => panic!("unexpected {other:?}"),
    }
    assert!(chart_failure("AAPL", None, true).is_none());
}

#[test]
fn history_symbol_prefers_the_chart_metadata() {
    assert_eq!(chart_symbol(Some("BRK-B".to_string()), "brk-b"), "BRK-B");
    assert_eq!(chart_symbol(None, "brk-b"), "brk-b");
}
