use yfinance::client::{
    classify_status, crumb_from_body, crumb_is_fresh, is_retryable, session_user_agent,
    status_failure, transport_retryable, user_agents, RetryState, StatusClass, DURATION_MAX_NANOS,
    QUERY2_HOST,
};
use yfinance::error::YfError;

#[test]
fn retryable_classification() {
    assert!(is_retryable(&YfError::RateLimited));
    assert!(is_retryable(&YfError::Status { status: 502, message: String::new() }));
    assert!(!is_retryable(&YfError::Status { status: 404, message: String::new() }));
}

#[test]
fn other_errors_are_final() {
    assert!(!is_retryable(&YfError::Auth("no crumb".into())));
    assert!(!is_retryable(&YfError::invalid("bad")));
    assert!(is_retryable(&YfError::Status { status: 500, message: String::new() }));
    assert!(!is_retryable(&YfError::Status { status: 499, message: String::new() }));
}

#[test]
fn crumb_is_trimmed_and_unquoted() {
    assert_eq!(crumb_from_body("  \"abc.DEF/12\"\n").as_deref(), Some("abc.DEF/12"));
    assert_eq!(crumb_from_body("xyz").as_deref(), Some("xyz"));
    assert_eq!(crumb_from_body("\"\"\"a\"b\"\"").as_deref(), Some("a\"b"));
}

#[test]
fn crumb_rejects_empty_and_html() {
    assert_eq!(crumb_from_body(""), None);
    assert_eq!(crumb_from_body("  \"\"  "), None);
    assert_eq!(crumb_from_body("<html>Too Many Requests</html>"), None);
}

#[test]
fn crumb_freshness_window() {
    assert!(crumb_is_fresh(0));
    assert!(crumb_is_fresh(1_799_999));
    assert!(!crumb_is_fresh(1_800_000));
}

#[test]
fn status_classes() {
    assert_eq!(classify_status(200), StatusClass::Success);
    assert_eq!(classify_status(204), StatusClass::Success);
    assert_eq!(classify_status(429), StatusClass::RateLimited);
    assert_eq!(classify_status(404), StatusClass::Failed);
    assert_eq!(classify_status(503), StatusClass::Failed);
    assert_eq!(classify_status(301), StatusClass::Failed);
}

#[test]
fn status_failure_keeps_two_hundred_chars() {
    let body: String = "é".repeat(250);
    match status_failure(503, &body) {
        YfError::Status { status, message } => {
            assert_eq!(status, 503);
            assert_eq!(message.chars().count(), 200);
            assert_eq!(message, "é".repeat(200));
        }
        other => panic!("unexpected {:?}", other),
    }
    match status_failure(404, "Not Found") {
        YfError::Status { message, .. } => assert_eq!(message, "Not Found"),
        other => panic!("unexpected {:?}", other),
    }
}

#[test]
fn session_agent_is_callers_or_a_browser() {
    assert_eq!(session_user_agent(Some("my-agent".into())), "my-agent");
    let ua = session_user_agent(None);
    assert!(user_agents().contains(&ua.as_str()));
    assert_eq!(user_agents().len(), 4);
    assert!(QUERY2_HOST.contains("yahoo"));
}

#[test]
fn retry_budget_and_backoff() {
    let s = RetryState::new(500_000_000);
    assert_eq!(s.attempt, 0);
    let s1 = s.after_failure(2, true).expect("first retry");
    assert_eq!(s1.attempt, 1);
    assert_eq!(s1.backoff_nanos, 1_000_000_000);
    assert_eq!(s1.backoff_parts(), (1, 0));
    let s2 = s1.after_failure(2, true).expect("second retry");
    assert_eq!(s2.backoff_nanos, 2_000_000_000);
    assert!(s2.after_failure(2, true).is_none());
    assert!(s.after_failure(2, false).is_none());
    assert!(s.after_failure(0, true).is_none());
    assert_eq!(s.backoff_parts(), (0, 500_000_000));
}

#[test]
fn backoff_saturates_at_longest_duration() {
    let max = std::time::Duration::MAX.as_nanos();
    assert_eq!(max, DURATION_MAX_NANOS);
    let s = RetryState::new(max - 1);
    let n = s.after_failure(5, true).unwrap();
    assert_eq!(n.backoff_nanos, DURATION_MAX_NANOS);
    let (secs, nanos) = n.backoff_parts();
    assert_eq!(std::time::Duration::new(secs, nanos), std::time::Duration::MAX);
    let half = RetryState::new(max / 2);
    assert_eq!(half.after_failure(5, true).unwrap().backoff_nanos, (max / 2) * 2);
}

#[test]
fn all_failures_retryable_send_max_retries_plus_one() {
    let mut state = RetryState::new(100);
    let mut attempts = 0;
    let mut waits = Vec::new();
    loop {
        attempts += 1;
        match state.after_failure(3, true) {
            Some(next) => {
                waits.push(state.backoff_nanos);
                state = next;
            }
            None => break,
        }
    }
    assert_eq!(attempts, 4);
    assert_eq!(waits, vec![100, 200, 400]);
}

#[test]
fn transport_failures_retry_on_timeout_connect_or_server_status() {
    assert!(transport_retryable(true, false, None));
    assert!(transport_retryable(false, true, Some(404)));
    assert!(transport_retryable(false, false, Some(500)));
    assert!(transport_retryable(false, false, Some(599)));
    assert!(!transport_retryable(false, false, Some(600)));
    assert!(!transport_retryable(false, false, Some(429)));
    assert!(!transport_retryable(false, false, None));
}
