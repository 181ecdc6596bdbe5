use lightweight_charts_backend::middleware::RateLimiter;
use lightweight_charts_backend::string_map::StringMap;

const SEC: u128 = 1_000_000_000;

#[test]
fn limiter_lets_through_at_most_max_per_window() {
    let mut limiter = RateLimiter::new(2, 1);
    assert!(limiter.check_at("1.2.3.4", 0));
    assert!(limiter.check_at("1.2.3.4", SEC / 2));
    assert!(!limiter.check_at("1.2.3.4", SEC / 2 + 1));
    // another key is counted apart
    assert!(limiter.check_at("5.6.7.8", SEC / 2 + 1));
    // at one second the first request has left the window
    assert!(limiter.check_at("1.2.3.4", SEC));
    assert!(!limiter.check_at("1.2.3.4", SEC + 1));
    // once the second one has left it too, there is room again
    assert!(limiter.check_at("1.2.3.4", SEC + SEC / 2 + 1));
}

#[test]
fn limiter_reads_the_clock() {
    let mut limiter = RateLimiter::new(3, 60);
    assert!(limiter.check_ip("10.0.0.1"));
    assert!(limiter.check("10.0.0.1"));
    assert!(limiter.check("10.0.0.1"));
    assert!(!limiter.check("10.0.0.1"));
    assert!(limiter.check("10.0.0.2"));
}

#[test]
fn zero_limit_refuses_everything() {
    let mut limiter = RateLimiter::new(0, 1);
    assert!(!limiter.check_at("k", 5));
}

#[test]
fn string_map_stores_and_replaces() {
    let mut m: StringMap<u32> = StringMap::new();
    assert_eq!(m.get("a"), None);
    assert_eq!(m.insert("a", 1), None);
    assert_eq!(m.insert("b", 2), None);
    assert_eq!(m.insert("a", 3), Some(1));
    assert_eq!(m.get("a"), Some(&3));
    assert_eq!(m.get("b"), Some(&2));
}
