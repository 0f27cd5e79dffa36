use descord::lru::LruMap;
use descord::ratelimit::{Admission, RateLimitHeaders, RateLimiter, ResponseAction};

fn headers(bucket: &str, remaining: u32, reset_at: u64) -> Option<RateLimitHeaders> {
    Some(RateLimitHeaders { bucket: bucket.to_string(), remaining, reset_at, limit: 5 })
}

#[test]
fn first_call_to_unseen_endpoint_is_optimistic() {
    let mut rl = RateLimiter::new(8, 8);
    assert_eq!(rl.before_call("channels/1/messages", 0), Admission::Proceed);
}

#[test]
fn exhausted_bucket_holds_call_until_reset() {
    let mut rl = RateLimiter::new(8, 8);
    let r = rl.on_response("channels/1/messages", 200, 0, headers("b1", 0, 5000));
    assert_eq!(r, ResponseAction::Done);
    assert_eq!(rl.before_call("channels/1/messages", 4999), Admission::WaitUntil(5000));
    assert_eq!(rl.before_call("channels/1/messages", 1000), Admission::WaitUntil(5000));
    assert_eq!(rl.before_call("channels/1/messages", 5000), Admission::Proceed);
}

#[test]
fn bucket_with_budget_left_proceeds() {
    let mut rl = RateLimiter::new(8, 8);
    rl.on_response("channels/1/messages", 200, 0, headers("b1", 3, 5000));
    assert_eq!(rl.before_call("channels/1/messages", 10), Admission::Proceed);
}

#[test]
fn too_many_requests_retries_after_server_delay() {
    let mut rl = RateLimiter::new(8, 8);
    let r = rl.on_response("users/@me", 429, 1500, headers("b2", 0, 9000));
    assert_eq!(r, ResponseAction::RetryAfter(1500));
    // a 429 does not teach the limiter anything
    assert_eq!(rl.before_call("users/@me", 0), Admission::Proceed);
}

#[test]
fn shared_bucket_limits_both_endpoints() {
    let mut rl = RateLimiter::new(8, 8);
    rl.on_response("a", 200, 0, headers("shared", 2, 100));
    rl.on_response("b", 200, 0, headers("shared", 0, 300));
    assert_eq!(rl.before_call("a", 50), Admission::WaitUntil(300));
    assert_eq!(rl.before_call("b", 50), Admission::WaitUntil(300));
}

#[test]
fn evicted_endpoint_is_unknown_again() {
    let mut rl = RateLimiter::new(8, 2);
    rl.on_response("e1", 200, 0, headers("b1", 0, 1000));
    rl.on_response("e2", 200, 0, headers("b2", 0, 1000));
    rl.on_response("e3", 200, 0, headers("b3", 0, 1000));
    assert_eq!(rl.before_call("e1", 0), Admission::Proceed);
    assert_eq!(rl.before_call("e2", 0), Admission::WaitUntil(1000));
    assert_eq!(rl.before_call("e3", 0), Admission::WaitUntil(1000));
}

#[test]
fn lru_evicts_least_recently_used_first() {
    let mut m: LruMap<u32> = LruMap::new(2);
    m.put("a".to_string(), 1);
    m.put("b".to_string(), 2);
    // using "a" moves it to the most recent position
    assert_eq!(m.get("a"), Some(1));
    m.put("c".to_string(), 3);
    assert_eq!(m.len(), 2);
    assert_eq!(m.find("b"), None);
    let i = m.find("a").unwrap();
    assert_eq!(*m.value(i), 1);
    let j = m.find("c").unwrap();
    assert_eq!(*m.value(j), 3);
}

#[test]
fn lru_put_replaces_existing_value() {
    let mut m: LruMap<u32> = LruMap::new(2);
    m.put("a".to_string(), 1);
    m.put("a".to_string(), 7);
    assert_eq!(m.len(), 1);
    assert_eq!(*m.value(m.find("a").unwrap()), 7);
}

#[test]
fn lru_of_capacity_zero_stays_empty() {
    let mut m: LruMap<u32> = LruMap::new(0);
    m.put("a".to_string(), 1);
    assert_eq!(m.len(), 0);
    assert_eq!(m.find("a"), None);
}

#[test]
fn exhausted_bucket_by_id_waits_until_reset() {
    let mut rl = RateLimiter::new(8, 8);
    rl.on_response("channels/1/messages", 200, 0, headers("b1", 0, 5000));
    assert_eq!(rl.wait_for_rate_limit("b1", 4000), Admission::WaitUntil(5000));
    assert_eq!(rl.wait_for_rate_limit("b1", 5000), Admission::Proceed);
    assert_eq!(rl.wait_for_rate_limit("unknown", 0), Admission::Proceed);
}
