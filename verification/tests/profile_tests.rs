use yfinance::profile::{
    extract_bootstrap_json, find_matching_brace, profile_from_scrape, profile_from_v10,
    strategy_quote_summary_literal, strategy_root_app_main, AssetProfileNode, Bootstrap, Ctx,
    Dispatch, FundProfileNode, Profile, ProfileModules, QuoteSummaryStore, QuoteTypeNode, Stores,
};
use yfinance::error::YfError;

#[test]
fn extracts_root_app_main_block() {
    let body = r#"<script>root.App.main = {"context":{"dispatcher":{"stores":{"QuoteSummaryStore":{"quoteType":{"quoteType":"EQUITY","longName":"Acme Inc."},"summaryProfile":{"sector":"Technology"}}}}}};
</script>"#;
    let json = strategy_root_app_main(body).expect("found");
    let boot: serde_json::Value = serde_json::from_str(&json).unwrap();
    let store = &boot["context"]["dispatcher"]["stores"]["QuoteSummaryStore"];
    assert_eq!(store["quoteType"]["longName"].as_str(), Some("Acme Inc."));
}

#[test]
fn extracts_literal_quote_summary_store() {
    let body = r#"<html>...prefix...{"QuoteSummaryStore":{"quoteType":{"quoteType":"ETF","shortName":"Vanguard ETF"},"fundProfile":{"family":"Vanguard"}}}...suffix..."#;
    let wrapped = strategy_quote_summary_literal(body).expect("found");
    let boot: serde_json::Value = serde_json::from_str(&wrapped).unwrap();
    assert_eq!(
        boot["context"]["dispatcher"]["stores"]["QuoteSummaryStore"]["fundProfile"]["family"]
            .as_str(),
        Some("Vanguard")
    );
}

#[test]
fn brace_matcher_respects_strings() {
    let s = r#"{"a":"}}","b":{"c":1}}"#;
    let end = find_matching_brace(s, 0).unwrap();
    assert_eq!(&s[end..=end], "}");
    assert_eq!(end, s.len() - 1);
}

#[test]
fn brace_matcher_handles_escapes_and_unbalanced_text() {
    let s = r#"{"a":"\"}"}"#;
    assert_eq!(find_matching_brace(s, 0), Some(s.len() - 1));
    assert_eq!(find_matching_brace("{{}", 0), None);
    assert_eq!(find_matching_brace("x{}", 1), Some(2));
}

#[test]
fn bootstrap_prefers_root_app_main() {
    let body = r#"root.App.main = {"a":1};"#;
    assert_eq!(extract_bootstrap_json(body).as_deref(), Some(r#"{"a":1}"#));
    assert_eq!(extract_bootstrap_json("<html>nothing</html>"), None);
}

fn quote_type(kind: &str, long: Option<&str>, short: Option<&str>) -> QuoteTypeNode {
    QuoteTypeNode {
        quote_type: Some(kind.to_string()),
        long_name: long.map(String::from),
        short_name: short.map(String::from),
    }
}

fn asset(sector: &str) -> AssetProfileNode {
    AssetProfileNode {
        address1: Some("One Apple Park Way".into()),
        address2: None,
        city: Some("Cupertino".into()),
        state: Some("CA".into()),
        country: Some("United States".into()),
        zip: Some("95014".into()),
        sector: Some(sector.into()),
        industry: Some("Consumer Electronics".into()),
        website: Some("https://www.apple.com".into()),
        long_business_summary: Some("Apple Inc. designs, manufactures, ...".into()),
        isin: None,
    }
}

#[test]
fn equity_modules_make_a_company() {
    let m = ProfileModules {
        asset_profile: Some(asset("Technology")),
        fund_profile: None,
        quote_type: Some(quote_type("EQUITY", Some("Apple Inc."), Some("Apple"))),
    };
    match profile_from_v10("AAPL", m) {
        Some(Profile::Company(c)) => {
            assert_eq!(c.name, "Apple Inc.");
            assert_eq!(c.sector.as_deref(), Some("Technology"));
            assert_eq!(c.address.city.as_deref(), Some("Cupertino"));
        }
        other => panic!("unexpected {:?}", other),
    }
}

#[test]
fn etf_modules_make_a_fund() {
    let m = ProfileModules {
        asset_profile: None,
        fund_profile: Some(FundProfileNode {
            legal_type: Some("Exchange Traded Fund".into()),
            family: Some("Vanguard".into()),
            isin: None,
        }),
        quote_type: Some(quote_type("ETF", None, Some("Vanguard 500 Index Fund ETF"))),
    };
    match profile_from_v10("VOO", m) {
        Some(Profile::Fund(f)) => {
            assert_eq!(f.name, "Vanguard 500 Index Fund ETF");
            assert_eq!(f.family.as_deref(), Some("Vanguard"));
        }
        other => panic!("unexpected {:?}", other),
    }
}

#[test]
fn missing_modules_give_no_profile() {
    let m = ProfileModules { asset_profile: None, fund_profile: None, quote_type: None };
    assert_eq!(profile_from_v10("AAPL", m), None);
    let m = ProfileModules {
        asset_profile: None,
        fund_profile: None,
        quote_type: Some(quote_type("EQUITY", None, None)),
    };
    assert_eq!(profile_from_v10("AAPL", m), None);
}

#[test]
fn other_kinds_fall_back_to_symbol_name() {
    let m = ProfileModules {
        asset_profile: None,
        fund_profile: None,
        quote_type: Some(quote_type("INDEX", None, None)),
    };
    let p = profile_from_v10("^GSPC", m).unwrap();
    assert_eq!(p.name(), "^GSPC");
}

#[test]
fn scrape_without_store_is_ticker_missing() {
    let boot = Bootstrap { context: None };
    match profile_from_scrape("AAPL", boot) {
        Err(YfError::TickerMissing { ticker, reason }) => {
            assert_eq!(ticker, "AAPL");
            assert_eq!(reason, "scrape JSON missing QuoteSummaryStore");
        }
        other => panic!("unexpected {:?}", other),
    }
}

#[test]
fn scrape_with_summary_profile_makes_a_company() {
    let store = QuoteSummaryStore {
        quote_type: Some(quote_type("EQUITY", Some("Acme Inc."), None)),
        summary_profile: Some(asset("Technology")),
        fund_profile: None,
    };
    let boot = Bootstrap {
        context: Some(Ctx {
            dispatcher: Some(Dispatch { stores: Some(Stores { quote_summary_store: Some(store) }) }),
        }),
    };
    let p = profile_from_scrape("ACME", boot).unwrap();
    assert_eq!(p.name(), "Acme Inc.");
    assert!(matches!(p, Profile::Company(_)));
}
