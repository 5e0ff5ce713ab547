use yfinance::error::YfError;
use yfinance::types::{Interval, Period};

#[test]
fn period_round_trip() {
    for p in [Period::D1, Period::M1, Period::Y1, Period::Ytd, Period::Max] {
        assert_eq!(Period::from_str(p.as_str()).unwrap(), p);
    }
}

#[test]
fn interval_round_trip() {
    for i in [Interval::M1, Interval::M30, Interval::H1, Interval::D1, Interval::Mo3] {
        assert_eq!(Interval::from_str(i.as_str()).unwrap(), i);
    }
}

#[test]
fn rejects_unknown() {
    assert!(Period::from_str("42x").is_err());
    assert!(Interval::from_str("17s").is_err());
}

#[test]
fn every_period_and_interval_round_trips() {
    for p in [
        Period::D1, Period::D5, Period::M1, Period::M3, Period::M6, Period::Y1, Period::Y2,
        Period::Y5, Period::Y10, Period::Ytd, Period::Max,
    ] {
        assert_eq!(Period::from_str(p.as_str()).unwrap(), p);
    }
    for i in [
        Interval::M1, Interval::M2, Interval::M5, Interval::M15, Interval::M30, Interval::M60,
        Interval::M90, Interval::H1, Interval::D1, Interval::D5, Interval::W1, Interval::Mo1,
        Interval::Mo3,
    ] {
        assert_eq!(Interval::from_str(i.as_str()).unwrap(), i);
    }
}

#[test]
fn names_are_yahoo_range_strings() {
    assert_eq!(Period::Y10.as_str(), "10y");
    assert_eq!(Period::Ytd.as_str(), "ytd");
    assert_eq!(Interval::Mo1.as_str(), "1mo");
    assert_eq!(Interval::H1.as_str(), "1h");
}

#[test]
fn unknown_period_message_names_the_text() {
    match Period::from_str("42x") {
        Err(YfError::InvalidArgument(m)) => assert_eq!(m, "unknown period `42x`"),
        other => panic!("unexpected {:?}", other),
    }
    match Interval::from_str("17s") {
        Err(YfError::InvalidArgument(m)) => assert_eq!(m, "unknown interval `17s`"),
        other => panic!("unexpected {:?}", other),
    }
}

#[test]
fn intraday_intervals() {
    assert!(Interval::M1.is_intraday());
    assert!(Interval::H1.is_intraday());
    assert!(!Interval::D1.is_intraday());
    assert!(!Interval::Mo3.is_intraday());
}

#[test]
fn std_from_str_agrees() {
    let p: Period = "5d".parse().unwrap();
    assert_eq!(p, Period::D5);
    let i: Interval = "1wk".parse().unwrap();
    assert_eq!(i, Interval::W1);
}
