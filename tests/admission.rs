use actix_ratelimit::limiter::{AdmissionError, Decision, RateLimitHeaders, RateLimiter};
use actix_ratelimit::memory::MemoryStore;
use actix_ratelimit::store::WindowStore;

fn limiter(max: usize, interval: u64) -> RateLimiter<MemoryStore> {
    RateLimiter::default().with_max_requests(max).with_interval(interval)
}

fn key(s: &str) -> Option<String> {
    Some(s.to_string())
}

fn admitted_with(limit: usize, remaining: usize, reset: u64) -> Result<Decision, AdmissionError> {
    Ok(Decision::Admit(RateLimitHeaders { limit, remaining, reset }))
}

fn rejected_with(limit: usize, reset: u64) -> Result<Decision, AdmissionError> {
    Ok(Decision::Reject(RateLimitHeaders { limit, remaining: 0, reset }))
}

#[test]
fn three_per_minute_scenario() {
    let mut l = limiter(3, 60);
    assert_eq!(l.decide(key("A"), 1000), admitted_with(3, 3, 60));
    assert_eq!(l.decide(key("A"), 1010), admitted_with(3, 2, 50));
    assert_eq!(l.decide(key("B"), 1015), admitted_with(3, 3, 60));
    assert_eq!(l.decide(key("A"), 1020), admitted_with(3, 1, 40));
    assert_eq!(l.decide(key("A"), 1030), rejected_with(3, 30));
    assert_eq!(l.decide(key("B"), 1030), admitted_with(3, 2, 45));
}

#[test]
fn remaining_counts_down_by_one() {
    let mut l = limiter(5, 100);
    for i in 0..5usize {
        let d = l.decide(key("client"), 10 + i as u64).unwrap();
        match d {
            Decision::Admit(h) => assert_eq!(h.remaining, 5 - i),
            Decision::Reject(_) => panic!("request {} rejected", i),
        }
    }
}

#[test]
fn request_past_quota_is_rejected() {
    let mut l = limiter(2, 30);
    assert!(matches!(l.decide(key("k"), 0), Ok(Decision::Admit(_))));
    assert!(matches!(l.decide(key("k"), 1), Ok(Decision::Admit(_))));
    assert_eq!(l.decide(key("k"), 2), rejected_with(2, 28));
    assert_eq!(l.decide(key("k"), 29), rejected_with(2, 1));
}

#[test]
fn window_elapses_without_removal() {
    let mut l = limiter(1, 10);
    assert_eq!(l.decide(key("k"), 50), admitted_with(1, 1, 10));
    assert_eq!(l.decide(key("k"), 59), rejected_with(1, 1));
    assert_eq!(l.decide(key("k"), 60), admitted_with(1, 1, 10));
    assert_eq!(l.decide(key("k"), 65), rejected_with(1, 5));
}

#[test]
fn no_over_admission_from_remaining() {
    let mut l = limiter(10, 100);
    l.store.create(&"k".to_string(), 4, 500).unwrap();
    let mut admitted = 0;
    for _ in 0..9 {
        if let Ok(Decision::Admit(_)) = l.decide(key("k"), 200) {
            admitted += 1;
        }
    }
    assert_eq!(admitted, 4);
}

#[test]
fn headers_stay_within_quota() {
    let mut l = limiter(3, 20);
    for t in 0..50u64 {
        let k = if t % 3 == 0 { "x" } else { "y" };
        let h = match l.decide(key(k), t).unwrap() {
            Decision::Admit(h) => h,
            Decision::Reject(h) => h,
        };
        assert_eq!(h.limit, 3);
        assert!(h.remaining <= 3);
        assert!(h.reset <= 20);
    }
}

#[test]
fn removal_restarts_window() {
    let mut l = limiter(2, 60);
    l.decide(key("k"), 0).unwrap();
    l.decide(key("k"), 1).unwrap();
    assert_eq!(l.decide(key("k"), 2), rejected_with(2, 58));
    assert_eq!(l.store.remove(&"k".to_string()), Ok(0));
    assert_eq!(l.decide(key("k"), 3), admitted_with(2, 2, 60));
}

#[test]
fn missing_identifier_is_an_error() {
    let mut l = limiter(3, 60);
    assert_eq!(l.decide(None, 0), Err(AdmissionError::IdentifierUnavailable));
    assert_eq!(l.decide(key("k"), 0), admitted_with(3, 3, 60));
}

#[test]
fn zero_quota_rejects_everything() {
    let mut l = limiter(0, 60);
    assert_eq!(l.decide(key("k"), 0), rejected_with(0, 60));
    assert_eq!(l.decide(key("k"), 1), rejected_with(0, 59));
}

#[test]
fn window_end_saturates() {
    let mut l = limiter(2, 100);
    assert_eq!(l.decide(key("k"), u64::MAX - 10), admitted_with(2, 2, 100));
    assert_eq!(l.decide(key("k"), u64::MAX - 4), admitted_with(2, 1, 4));
}

#[test]
fn new_limiter_starts_unset() {
    let l = RateLimiter::new(MemoryStore::new());
    assert_eq!(l.interval, 0);
    assert_eq!(l.max_requests, 0);
    let l = l.with_interval(7).with_max_requests(9);
    assert_eq!((l.interval, l.max_requests), (7, 9));
}
