use base64::Engine;
use yfinance::request::{
    chart_path, json_string, news_payload, options_path, path_segment, quote_summary_path,
    timeseries_path,
};
use yfinance::stream::{frame_bytes, subscribe_message};

#[test]
fn path_segments_are_percent_encoded() {
    assert_eq!(path_segment("AAPL"), "AAPL");
    assert_eq!(path_segment("BRK.B"), "BRK.B");
    assert_eq!(path_segment("^GSPC"), "%5EGSPC");
    assert_eq!(path_segment("EURUSD=X"), "EURUSD%3DX");
    assert_eq!(path_segment("a b/é"), "a%20b%2F%C3%A9");
    assert_eq!(path_segment("~_-"), "~_-");
}

#[test]
fn endpoint_paths() {
    assert_eq!(chart_path("^GSPC"), "/v8/finance/chart/%5EGSPC");
    assert_eq!(quote_summary_path("AAPL"), "/v10/finance/quoteSummary/AAPL");
    assert_eq!(options_path("AAPL"), "/v7/finance/options/AAPL");
    assert_eq!(
        timeseries_path("MSFT"),
        "/ws/fundamentals-timeseries/v1/finance/timeseries/MSFT"
    );
}

#[test]
fn json_strings_match_serde_json() {
    for s in ["AAPL", "", "quote\"back\\slash", "tab\tnew\nline\r", "\u{1}\u{8}\u{c}\u{1f}\u{7f}", "é😀/"] {
        assert_eq!(json_string(s), serde_json::to_string(s).unwrap(), "{s:?}");
    }
}

#[test]
fn news_body_matches_serde_json() {
    let body = news_payload(10, "AAPL");
    assert_eq!(body, r#"{"serviceConfig":{"snippetCount":10,"s":["AAPL"]}}"#);
    let parsed: serde_json::Value = serde_json::from_str(&body).unwrap();
    assert_eq!(parsed["serviceConfig"]["snippetCount"].as_u64(), Some(10));
    assert_eq!(parsed["serviceConfig"]["s"][0].as_str(), Some("AAPL"));
    let quoted = news_payload(3, "A\"B");
    let parsed: serde_json::Value = serde_json::from_str(&quoted).unwrap();
    assert_eq!(parsed["serviceConfig"]["s"][0].as_str(), Some("A\"B"));
}

#[test]
fn subscription_message() {
    let syms = vec!["AAPL".to_string(), "BTC-USD".to_string()];
    assert_eq!(subscribe_message(&syms), r#"{"subscribe":["AAPL","BTC-USD"]}"#);
    assert_eq!(subscribe_message(&[]), r#"{"subscribe":[]}"#);
    let mut object = serde_json::Map::new();
    object.insert("subscribe".to_string(), serde_json::to_value(&syms).unwrap());
    assert_eq!(subscribe_message(&syms), serde_json::Value::Object(object).to_string());
}

#[test]
fn frames_are_trimmed_and_base64_decoded() {
    let raw = vec![0x0a, 0x04, b'A', b'A', b'P', b'L'];
    let b64 = base64::engine::general_purpose::STANDARD.encode(&raw);
    assert_eq!(frame_bytes(&format!("  {b64}\n")), Some(raw));
    assert_eq!(frame_bytes("not base64!"), None);
}
