use cdsapi::policy::{backoff, retriable_status, RequestDecision, RetryBudget};

#[test]
fn retriable_codes() {
    for c in [408u16, 429, 500, 502, 503, 504] {
        assert!(retriable_status(c), "{c}");
    }
    for c in [200u16, 201, 400, 401, 403, 404, 501] {
        assert!(!retriable_status(c), "{c}");
    }
}

#[test]
fn backoff_values() {
    assert_eq!(backoff(1000, 120000), 1500);
    assert_eq!(backoff(1500, 120000), 2250);
    assert_eq!(backoff(0, 120000), 1000);
    assert_eq!(backoff(400, 120000), 1000);
    assert_eq!(backoff(100000, 120000), 120000);
    assert_eq!(backoff(120000, 120000), 120000);
    assert_eq!(backoff(1000, 500), 500);
    assert_eq!(backoff(u64::MAX, u64::MAX), u64::MAX);
    assert_eq!(backoff(3, 120000), 1000);
    assert_eq!(backoff(2001, 120000), 3001);
}

#[test]
fn backoff_never_decreases_until_capped() {
    let max = 120000u64;
    let mut d = 1000u64;
    let mut seen = Vec::new();
    for _ in 0..20 {
        let n = backoff(d, max);
        assert!(n >= d);
        assert!(n <= max);
        seen.push(n);
        d = n;
    }
    assert_eq!(*seen.last().unwrap(), max);
    for a in [0u64, 10, 999, 1000, 5000, 80000, 200000] {
        for b in [0u64, 10, 999, 1000, 5000, 80000, 200000] {
            if a <= b {
                assert!(backoff(a, max) <= backoff(b, max));
            }
        }
    }
}

#[test]
fn budget_of_one_delivers_first_error_status() {
    let mut b = RetryBudget::new(1);
    assert_eq!(b.on_outcome(Some(500)), RequestDecision::Deliver);
    assert_eq!(b.attempts, 1);
}

#[test]
fn budget_of_one_gives_up_on_first_connection_failure() {
    let mut b = RetryBudget::new(1);
    assert_eq!(b.on_outcome(None), RequestDecision::GiveUp);
}

#[test]
fn budget_retries_transient_then_delivers() {
    let mut b = RetryBudget::new(3);
    assert_eq!(b.on_outcome(Some(503)), RequestDecision::Retry);
    assert_eq!(b.on_outcome(None), RequestDecision::Retry);
    assert_eq!(b.on_outcome(Some(503)), RequestDecision::Deliver);
    assert_eq!(b.attempts, 3);
}

#[test]
fn budget_delivers_other_statuses_at_once() {
    let mut b = RetryBudget::new(3);
    assert_eq!(b.on_outcome(Some(200)), RequestDecision::Deliver);
    assert_eq!(b.on_outcome(Some(404)), RequestDecision::Deliver);
    assert_eq!(b.attempts, 0);
}
