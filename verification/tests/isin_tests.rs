use yfinance::isin::{
    isin_from_reply, looks_like_isin, normalize_sym, pick_from_flat_suggest, pick_from_parts,
    scan_raw_body, FlatSuggest,
};
use yfinance::json::{Json, JsonNumber};

#[test]
fn looks_like_isin_basic() {
    assert!(looks_like_isin("US0378331005"));
    assert!(looks_like_isin("FR0013410370"));
    assert!(!looks_like_isin("AAPL"));
    assert!(!looks_like_isin("US037833100A")); // last char must be digit
    assert!(!looks_like_isin("000378331005")); // first two must be alpha
}

#[test]
fn normalize_drops_suffix() {
    assert_eq!(normalize_sym("AAPL"), "aapl");
    assert_eq!(normalize_sym("BRK.B"), "brk");
    assert_eq!(normalize_sym("brk-b"), "brk");
    assert_eq!(normalize_sym("7203.T"), "7203");
}

#[test]
fn scan_finds_isin_in_jsonp() {
    let body = r#"mmSuggestDeliver(0, ..., new Array("Apple Inc.", "Stocks", "AAPL|US0378331005|AAPL||AAPL", ...))"#;
    assert_eq!(scan_raw_body(body).as_deref(), Some("US0378331005"));
}

#[test]
fn parse_flat_suggest_matches_symbol() {
    // The reply `[{"symbol":"AAPL","isin":"US0378331005"}]`, read as records.
    let rows = vec![FlatSuggest {
        value: None,
        symbol: Some("AAPL".to_string()),
        isin: Some("US0378331005".to_string()),
    }];
    assert_eq!(
        pick_from_flat_suggest(&rows, "aapl").as_deref(),
        Some("US0378331005"),
    );
}

#[test]
fn isin_check_trims_and_accepts_lowercase_letters() {
    assert!(looks_like_isin("  US0378331005\n"));
    assert!(!looks_like_isin("US03783310051"));
    assert!(!looks_like_isin(""));
    assert!(looks_like_isin("us0378331005"));
}

#[test]
fn normalize_keeps_symbol_without_separator() {
    assert_eq!(normalize_sym("  MSFT "), "msft");
    assert_eq!(normalize_sym("-X"), "");
}

#[test]
fn scan_finds_nothing_without_isin() {
    assert_eq!(scan_raw_body("no identifiers here"), None);
    assert_eq!(scan_raw_body("12345678901X"), None);
}

#[test]
fn scan_takes_first_window_of_a_long_run() {
    assert_eq!(scan_raw_body("XX12345678901").as_deref(), Some("XX1234567890"));
}

#[test]
fn scan_takes_first_isin_shaped_run() {
    let body = "a DE0007164600 then US0378331005";
    assert_eq!(scan_raw_body(body).as_deref(), Some("DE0007164600"));
}

#[test]
fn parts_pick_requires_matching_symbol() {
    let parts: Vec<String> = vec!["AAPL".into(), "Apple".into(), "us0378331005".into()];
    assert_eq!(pick_from_parts(&parts, "aapl").as_deref(), Some("US0378331005"));
    assert_eq!(pick_from_parts(&parts, "msft"), None);
}

#[test]
fn flat_suggest_falls_back_to_any_isin() {
    let rows = vec![FlatSuggest {
        value: None,
        symbol: Some("OTHER".to_string()),
        isin: Some("FR0013410370".to_string()),
    }];
    assert_eq!(
        pick_from_flat_suggest(&rows, "aapl").as_deref(),
        Some("FR0013410370"),
    );
}

fn s(x: &str) -> Json {
    Json::Str(x.to_string())
}

#[test]
fn reply_prefers_json_suggestions() {
    let item = Json::Object(vec![("Value".to_string(), s("AAPL|US0378331005|AAPL||AAPL"))]);
    let reply = Json::Object(vec![
        ("Suggestions".to_string(), Json::Array(vec![item])),
        ("count".to_string(), Json::Number(JsonNumber { as_u64: Some(1), as_i64: Some(1) })),
    ]);
    let got = isin_from_reply("AAPL", "", Some(&reply), None);
    assert_eq!(got.as_deref(), Some("US0378331005"));
}

#[test]
fn reply_without_structure_scans_raw_text() {
    let got = isin_from_reply("AAPL", "junk US0378331005 junk", None, None);
    assert_eq!(got.as_deref(), Some("US0378331005"));
}

#[test]
fn pick_from_parts_needs_the_symbol_first() {
    let parts: Vec<String> = vec!["AAPL".into(), "US0378331005".into(), "AAPL".into()];
    assert_eq!(pick_from_parts(&parts, "aapl").as_deref(), Some("US0378331005"));
    assert_eq!(pick_from_parts(&parts, "msft"), None);
    let lower: Vec<String> = vec!["aapl".into(), "Apple".into(), " us0378331005 ".into()];
    assert_eq!(pick_from_parts(&lower, "aapl").as_deref(), Some(" US0378331005 "));
    assert_eq!(pick_from_parts(&[], "aapl"), None);
}

#[test]
fn normalized_roots_are_plain() {
    for s in ["BRK-B", "Mc.D:X", " A B ", "X\tY", "ÄB.C"] {
        let r = normalize_sym(s);
        assert!(!r.contains('.') && !r.contains('-'));
        assert!(!r.chars().any(|c| c.is_ascii_uppercase()));
    }
    assert_eq!(normalize_sym("ÄB.C"), "Äb");
}

#[test]
fn raw_scan_takes_leftmost_alnum_run() {
    assert_eq!(
        scan_raw_body("x=gb0002634946;US0378331005").as_deref(),
        Some("GB0002634946")
    );
    assert_eq!(scan_raw_body("AUS0378331005").as_deref(), Some("AUS037833100"));
    assert_eq!(scan_raw_body("AU-S0378331005"), None);
    assert_eq!(scan_raw_body("ab12345678901").as_deref(), Some("AB1234567890"));
}
