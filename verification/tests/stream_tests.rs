use yfinance::stream::{
    frame_volume, opt_str, quote_volume, should_emit, StreamConfig, StreamMethod, VolumeTracker,
};

#[test]
fn volume_tracker_first_tick_is_none() {
    let mut t = VolumeTracker::default();
    assert_eq!(t.delta("AAPL", Some(1000)), None);
}

#[test]
fn volume_tracker_emits_delta() {
    let mut t = VolumeTracker::default();
    t.delta("AAPL", Some(1000));
    assert_eq!(t.delta("AAPL", Some(1500)), Some(500));
    assert_eq!(t.delta("AAPL", Some(1500)), Some(0));
}

#[test]
fn volume_tracker_handles_reset() {
    let mut t = VolumeTracker::default();
    t.delta("AAPL", Some(10_000));
    // After-hours rollover — counter resets to a small value.
    assert_eq!(t.delta("AAPL", Some(200)), Some(200));
}

#[test]
fn volume_tracker_keeps_symbols_apart() {
    let mut t = VolumeTracker::new();
    assert_eq!(t.delta("AAPL", Some(100)), None);
    assert_eq!(t.delta("MSFT", Some(40)), None);
    assert_eq!(t.delta("AAPL", Some(130)), Some(30));
    assert_eq!(t.delta("MSFT", Some(45)), Some(5));
    assert_eq!(t.previous("AAPL"), Some(130));
    assert_eq!(t.previous("GOOG"), None);
}

#[test]
fn volume_tracker_ignores_missing_volume() {
    let mut t = VolumeTracker::new();
    assert_eq!(t.delta("AAPL", None), None);
    assert_eq!(t.previous("AAPL"), None);
    assert_eq!(t.delta("AAPL", Some(7)), None);
    assert_eq!(t.delta("AAPL", None), None);
    assert_eq!(t.delta("AAPL", Some(9)), Some(2));
}

#[test]
fn emit_rules_of_polling() {
    assert!(should_emit(false, false, None));
    assert!(!should_emit(true, false, None));
    assert!(!should_emit(true, false, Some(0)));
    assert!(should_emit(true, false, Some(3)));
    assert!(should_emit(true, true, Some(0)));
}

#[test]
fn empty_protobuf_string_is_unset() {
    assert_eq!(opt_str(String::new()), None);
    assert_eq!(opt_str("USD".to_string()), Some("USD".to_string()));
}

#[test]
fn stream_defaults() {
    assert_eq!(StreamMethod::default(), StreamMethod::WebSocket);
    let c = StreamConfig::default();
    assert!(c.diff_only);
    assert_eq!(c.interval, std::time::Duration::from_secs(1));
}

#[test]
fn frame_and_quote_volumes() {
    assert_eq!(frame_volume(0), None);
    assert_eq!(frame_volume(12_345_678), Some(12_345_678));
    assert_eq!(quote_volume(Some(1_500)), Some(1_500));
    assert_eq!(quote_volume(Some(u64::MAX)), None);
    assert_eq!(quote_volume(None), None);
}
