use yfinance::fundamentals::FundamentalsKind;
use yfinance::lookup::LookupType;
use yfinance::news::NewsTab;
use yfinance::request::{
    batch_quote_query, bool_str, i64_text, join_strs, lookup_label, lookup_query, news_label,
    news_path, quote_summary_query, search_query, shares_query, shares_query_at, shares_query_checked,
    shares_type,
    timeseries_query, timeseries_query_at, timeseries_types, u64_text, LookupParams, NewsParams,
    SearchParams,
};

fn pairs(q: &[(String, String)]) -> Vec<(&str, &str)> {
    q.iter().map(|(k, v)| (k.as_str(), v.as_str())).collect()
}

#[test]
fn numbers_in_decimal() {
    assert_eq!(u64_text(0), "0");
    assert_eq!(u64_text(25), "25");
    assert_eq!(u64_text(u64::MAX), u64::MAX.to_string());
    assert_eq!(i64_text(-7), "-7");
    assert_eq!(i64_text(1_700_000_000), "1700000000");
    assert_eq!(i64_text(i64::MIN), i64::MIN.to_string());
    assert_eq!(i64_text(i64::MAX), i64::MAX.to_string());
    assert_eq!(bool_str(true), "true");
    assert_eq!(bool_str(false), "false");
}

#[test]
fn joins_with_separator() {
    assert_eq!(join_strs(&[], ','), "");
    assert_eq!(join_strs(&["AAPL"], ','), "AAPL");
    assert_eq!(join_strs(&["AAPL", "MSFT", "GOOG"], ','), "AAPL,MSFT,GOOG");
}

#[test]
fn lookup_request() {
    let q = lookup_query("apple inc", LookupType::Equity, 25, true);
    assert_eq!(
        pairs(&q),
        vec![
            ("query", "apple inc"),
            ("type", "equity"),
            ("count", "25"),
            ("formatted", "false"),
            ("lang", "en-US"),
            ("region", "US"),
            ("fetchPricingData", "true"),
        ]
    );
    assert_eq!(lookup_label(LookupType::All, "apple inc"), "all_apple_inc");
}

#[test]
fn search_request() {
    let q = search_query("tesla", 10, 5, false);
    assert_eq!(
        pairs(&q),
        vec![
            ("q", "tesla"),
            ("quotesCount", "10"),
            ("newsCount", "5"),
            ("enableFuzzyQuery", "false"),
            ("lang", "en-US"),
            ("region", "US"),
        ]
    );
}

#[test]
fn news_request_paths() {
    assert_eq!(news_path(NewsTab::All), "/xhr/ncp?queryRef=newsAll&serviceKey=ncp_fin");
    assert_eq!(news_label(NewsTab::PressReleases), "news_pressRelease");
}

#[test]
fn batch_quote_request() {
    let (q, label) = batch_quote_query(&["AAPL"]);
    assert_eq!(pairs(&q), vec![("symbols", "AAPL")]);
    assert_eq!(label, "AAPL");
    let (q, label) = batch_quote_query(&["AAPL", "MSFT"]);
    assert_eq!(pairs(&q), vec![("symbols", "AAPL,MSFT")]);
    assert_eq!(label, "MULTI_2");
}

#[test]
fn timeseries_request() {
    let types = timeseries_types(FundamentalsKind::CashFlow, true);
    assert!(types.starts_with("quarterlyForeignSales,quarterlyDomesticSales,quarterlyFreeCashFlow,"));
    assert_eq!(types.split(',').count(), FundamentalsKind::CashFlow.keys().len());
    assert!(types.split(',').all(|t| t.starts_with("quarterly")));
    let q = timeseries_query_at("AAPL", FundamentalsKind::IncomeStatement, false, 1_700_000_000);
    let p = pairs(&q);
    assert_eq!(p.len(), 8);
    assert_eq!(p[0], ("symbol", "AAPL"));
    assert!(p[1].1.starts_with("annualTaxEffectOfUnusualItems,annualTaxRateForCalcs,"));
    assert_eq!(p[2], ("period1", "493590046"));
    assert_eq!(p[3], ("period2", "1700000000"));
    assert_eq!(&p[4..], &[("merge", "false"), ("padTimeSeries", "true"), ("lang", "en-US"), ("region", "US")]);
    let live = timeseries_query("AAPL", FundamentalsKind::BalanceSheet, false);
    assert_eq!(live.len(), 8);
    assert!(live[3].1.parse::<i64>().unwrap() > 1_700_000_000);
}

#[test]
fn quote_summary_request() {
    let q = quote_summary_query(&["assetProfile", "quoteType", "fundProfile"]);
    assert_eq!(
        pairs(&q),
        vec![
            ("modules", "assetProfile,quoteType,fundProfile"),
            ("formatted", "false"),
            ("lang", "en-US"),
            ("region", "US"),
        ]
    );
}

#[test]
fn share_count_request() {
    assert_eq!(shares_type(true), "quarterlyBasicAverageShares");
    assert_eq!(shares_type(false), "annualBasicAverageShares");
    let q = shares_query_at("MSFT", false, 1_700_000_000);
    assert_eq!(
        pairs(&q),
        vec![
            ("symbol", "MSFT"),
            ("type", "annualBasicAverageShares"),
            ("period1", "1652652800"),
            ("period2", "1700000000"),
        ]
    );
    let live = shares_query("MSFT", true).expect("the clock is past 1970");
    let start: i64 = live[2].1.parse().unwrap();
    let end: i64 = live[3].1.parse().unwrap();
    assert_eq!(end - start, 47_347_200);
}

#[test]
fn share_count_window_must_be_representable() {
    let q = shares_query_checked("MSFT", true, 1_700_000_000).expect("a representable window");
    assert_eq!(
        pairs(&q),
        vec![
            ("symbol", "MSFT"),
            ("type", "quarterlyBasicAverageShares"),
            ("period1", "1652652800"),
            ("period2", "1700000000"),
        ]
    );
    assert!(shares_query_checked("MSFT", true, i64::MIN).is_none());
    assert!(shares_query_checked("MSFT", true, i64::MIN + 47_347_200).is_some());
    assert!(shares_query_checked("MSFT", true, i64::MIN + 47_347_199).is_none());
}

#[test]
fn request_defaults() {
    let s = SearchParams::new("tesla".into());
    assert_eq!((s.max_results, s.news_count, s.enable_fuzzy), (10, 5, true));
    assert_eq!(pairs(&s.query_string())[1], ("quotesCount", "10"));
    let l = LookupParams::new("apple inc".into());
    assert_eq!(l.kind, LookupType::All);
    assert_eq!((l.count, l.fetch_pricing_data), (25, true));
    assert_eq!(pairs(&l.query_string())[2], ("count", "25"));
    assert_eq!(l.label(), "all_apple_inc");
    let n = NewsParams::new("AAPL".into());
    assert_eq!((n.count, n.tab), (10, NewsTab::LatestNews));
}
