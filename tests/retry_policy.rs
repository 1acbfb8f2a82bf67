use argus::config::stage_retry_policy;
use argus::retry::{Attempts, Decision, Failure, Policy};

#[test]
fn doubling_delays_capped_at_one_minute() {
    let p = stage_retry_policy();
    let got: Vec<u64> = (1..=10).map(|n| p.backoff(n)).collect();
    assert_eq!(got, vec![1000, 2000, 4000, 8000, 16000, 32000, 60000, 60000, 60000, 60000]);
    assert_eq!(p.backoff(20), 60000);
    assert_eq!(p.backoff(u32::MAX), 60000);
}

#[test]
fn consecutive_failures_follow_schedule() {
    let p = stage_retry_policy();
    let mut a = Attempts::new();
    let mut delays = vec![];
    for _ in 0..8 {
        match a.on_failure(&p, Failure::Retry) {
            Decision::RetryAfter(d) => delays.push(d),
            other => panic!("unexpected {:?}", other),
        }
    }
    assert_eq!(delays, vec![1000, 2000, 4000, 8000, 16000, 32000, 60000, 60000]);
    a.on_success();
    assert_eq!(a.on_failure(&p, Failure::Retry), Decision::RetryAfter(1000));
}

#[test]
fn budget_exhausted_aborts_when_not_dismissible() {
    let p = stage_retry_policy();
    let mut a = Attempts::new();
    for _ in 0..20 {
        assert!(matches!(a.on_failure(&p, Failure::Restart), Decision::RestartAfter(_)));
    }
    assert_eq!(a.on_failure(&p, Failure::Restart), Decision::Abort);
}

#[test]
fn budget_exhausted_dismisses_when_dismissible() {
    let p = Policy { dismissible: true, ..stage_retry_policy() };
    assert_eq!(p.decide(21, Failure::Retry), Decision::Dismiss);
    assert_eq!(p.decide(20, Failure::Retry), Decision::RetryAfter(60000));
}

#[test]
fn fatal_is_never_retried() {
    let p = stage_retry_policy();
    assert_eq!(p.decide(1, Failure::Fatal), Decision::Abort);
    let q = Policy { dismissible: true, ..p };
    assert_eq!(q.decide(1, Failure::Fatal), Decision::Dismiss);
}

#[test]
fn zero_factor_gives_zero_after_first() {
    let p = Policy { max_retries: 5, backoff_unit: 500, backoff_factor: 0, max_backoff: 100, dismissible: false };
    assert_eq!(p.backoff(1), 100);
    assert_eq!(p.backoff(2), 0);
    assert_eq!(p.backoff(3), 0);
}

#[test]
fn large_values_saturate_at_cap() {
    let p = Policy { max_retries: 5, backoff_unit: u64::MAX / 2, backoff_factor: 3, max_backoff: u64::MAX, dismissible: false };
    assert_eq!(p.backoff(1), u64::MAX / 2);
    assert_eq!(p.backoff(2), u64::MAX);
    let q = Policy { backoff_factor: 1, backoff_unit: 7, max_backoff: 1000, ..p };
    assert_eq!(q.backoff(9), 7);
}
