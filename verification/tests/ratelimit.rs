use jars::decimal::u64_to_decimal;
use jars::ratelimit::{increment_key_for_clock, window_for_clock, RateLimitError};
use std::time::SystemTime;
use jars::ratelimit::{
    counter_key, current_increment_key, current_window, increment_key_at, under_limit_decision,
    window_query_at, COUNTER_EXPIRY_SECONDS, REQUEST_LIMIT_PER_MINUTE, WINDOW_SECONDS,
};

#[test]
fn decimal_text() {
    assert_eq!(u64_to_decimal(0), "0");
    assert_eq!(u64_to_decimal(7), "7");
    assert_eq!(u64_to_decimal(1234), "1234");
    assert_eq!(u64_to_decimal(u64::MAX), u64::MAX.to_string());
    assert_eq!(u64_to_decimal(28_000_000), "28000000");
}

#[test]
fn counter_key_is_path_colon_minute() {
    assert_eq!(counter_key("/api/items", 28_000_000), "/api/items:28000000");
    assert_eq!(counter_key("", 0), ":0");
}

#[test]
fn window_keys_cover_two_minutes() {
    let q = window_query_at("/x", 125);
    assert_eq!(q.now_secs, 125);
    assert_eq!(q.previous_key, "/x:1");
    assert_eq!(q.current_key, "/x:2");
    let q = window_query_at("/x", 60);
    assert_eq!(q.previous_key, "/x:0");
    assert_eq!(q.current_key, "/x:1");
}

#[test]
fn increment_key_is_read_back() {
    assert_eq!(increment_key_at("/x", 125), "/x:2");
    assert_eq!(increment_key_at("/x", 125), window_query_at("/x", 125).current_key);
    assert_eq!(increment_key_at("/x", 125), window_query_at("/x", 185).previous_key);
    assert_eq!(increment_key_at("/x", 59), "/x:0");
}

#[test]
fn decision_without_traffic() {
    assert!(under_limit_decision(None, None, 1_000, 100));
    assert!(under_limit_decision(Some(0), Some(99), 1_000, 100));
    assert!(!under_limit_decision(None, Some(100), 1_000, 100));
}

#[test]
fn decision_full_current_minute() {
    assert!(!under_limit_decision(Some(0), Some(100), 61, 100));
    assert!(!under_limit_decision(None, Some(500), 119, 100));
}

#[test]
fn decision_weighs_previous_minute() {
    // 30 seconds into the minute: half of the previous minute counts.
    // (30 * 100 + 60 * 49 + 59) / 60 = 99
    assert!(under_limit_decision(Some(100), Some(49), 90, 100));
    // (30 * 100 + 60 * 50 + 59) / 60 = 100
    assert!(!under_limit_decision(Some(100), Some(50), 90, 100));
    // At the minute boundary the previous minute counts in full.
    assert!(!under_limit_decision(Some(60), Some(40), 120, 100));
    assert!(under_limit_decision(Some(60), Some(39), 120, 100));
    // Rounded up: 59 seconds in, one previous request still weighs 1/60.
    assert!(!under_limit_decision(Some(1), Some(99), 119, 100));
}

#[test]
fn decision_zero_limit_refuses() {
    assert!(!under_limit_decision(None, None, 1_000, 0));
}

#[test]
fn constants() {
    assert_eq!(REQUEST_LIMIT_PER_MINUTE, 100);
    assert_eq!(WINDOW_SECONDS, 60);
    assert_eq!(COUNTER_EXPIRY_SECONDS, 130);
}

#[test]
fn clock_windows_agree() {
    let q = match current_window("/now") {
        Ok(q) => q,
        Err(_) => panic!("system clock is not usable"),
    };
    let minute = q.now_secs / 60;
    assert_eq!(q.current_key, format!("/now:{}", minute));
    assert_eq!(q.previous_key, format!("/now:{}", minute - 1));
    let (now, key) = current_increment_key("/now").unwrap();
    assert!(now >= q.now_secs);
    assert_eq!(key, format!("/now:{}", now / 60));
}

#[test]
fn window_for_clock_outcomes() {
    let q = window_for_clock("/p", Ok(3_600)).ok().unwrap();
    assert_eq!(q.now_secs, 3_600);
    assert_eq!(q.previous_key, "/p:59");
    assert_eq!(q.current_key, "/p:60");

    assert!(matches!(window_for_clock("/p", Ok(59)), Err(RateLimitError::ClockInFirstMinute)));

    let before_epoch = SystemTime::UNIX_EPOCH.duration_since(SystemTime::now());
    let err = before_epoch.map(|d| d.as_secs());
    assert!(matches!(window_for_clock("/p", err.clone()), Err(RateLimitError::ClockBeforeEpoch(_))));

    assert_eq!(increment_key_for_clock("/p", Ok(59)).ok().unwrap(), (59, String::from("/p:0")));
    assert!(increment_key_for_clock("/p", err).is_err());
}

#[test]
fn read_after_increment_same_minute() {
    // No counters yet: admitted at limit 1.
    assert!(under_limit_decision(None, None, 125, 1));
    // The increment lands on the key the next check reads as current.
    assert_eq!(increment_key_at("/a", 121), window_query_at("/a", 125).current_key);
    // With that counter at one, the check refuses.
    assert!(!under_limit_decision(None, Some(1), 125, 1));
}
