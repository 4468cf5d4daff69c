use shadowprobe::{RateLimiter, RateLimiterPresets, RequestFingerprint, ScanCache};

#[test]
fn test_cache() {
    let mut cache = ScanCache::new(60);
    let fp = RequestFingerprint::new("http://test.com", "GET", "id=1");

    assert!(!cache.contains(&fp));

    cache.insert(&fp, "test_result".to_string());
    assert!(cache.contains(&fp));

    let result = cache.get(&fp);
    assert_eq!(result, Some("test_result".to_string()));
}

#[test]
fn test_fingerprint() {
    let fp1 = RequestFingerprint::new("http://test.com", "GET", "id=1");
    let fp2 = RequestFingerprint::new("http://test.com", "GET", "id=1");
    let fp3 = RequestFingerprint::new("http://test.com", "GET", "id=2");

    assert_eq!(fp1.key(), fp2.key());
    assert_ne!(fp1.key(), fp3.key());
}

#[test]
fn fingerprint_key_layout() {
    let fp = RequestFingerprint::new("http://t/a", "GET", "id=1");
    let key = fp.key();
    assert_eq!(key, format!("GET:http://t/a:{}", fp.params_hash));
}

#[test]
fn cache_entry_expires_after_ttl() {
    let mut cache = ScanCache::new(60);
    let fp = RequestFingerprint::new("http://t/a", "GET", "id=1");
    cache.insert_at(&fp, "r".to_string(), 1_000);
    assert!(cache.contains_at(&fp, 1_000 + 59_999));
    assert!(!cache.contains_at(&fp, 1_000 + 60_000));
    assert_eq!(cache.get_at(&fp, 1_000 + 60_000), None);
    assert_eq!(cache.stats_at(0).total_entries, 0);
}

#[test]
fn cache_stats_cleanup_and_clear() {
    let mut cache = ScanCache::new(10);
    let a = RequestFingerprint::new("http://t/a", "GET", "");
    let b = RequestFingerprint::new("http://t/b", "GET", "");
    cache.insert_at(&a, "a".to_string(), 0);
    cache.insert_at(&b, "b".to_string(), 8_000);
    let s = cache.stats_at(12_000);
    assert_eq!((s.total_entries, s.expired_entries, s.active_entries), (2, 1, 1));
    cache.cleanup_at(12_000);
    assert_eq!(cache.stats_at(12_000).total_entries, 1);
    assert_eq!(cache.get_at(&b, 12_000), Some("b".to_string()));
    cache.clear();
    assert_eq!(cache.stats_at(12_000).total_entries, 0);
}

#[test]
fn zero_ttl_never_holds() {
    let mut cache = ScanCache::new(0);
    let a = RequestFingerprint::new("http://t/a", "GET", "");
    cache.insert_at(&a, "a".to_string(), 5);
    assert!(!cache.contains_at(&a, 5));
    assert_eq!(ScanCache::default().ttl_seconds(), 3600);
}

#[test]
fn rate_limiter_floor_of_five_acquisitions() {
    let mut limiter = RateLimiter::new(10, false);
    let start = 1_000u64;
    let mut now = start;
    for _ in 0..5 {
        let wait = limiter.acquire(now);
        now += wait;
    }
    assert!(now - start >= 400);
    assert_eq!(now - start, 400);
}

#[test]
fn rate_limiter_settings() {
    let l = RateLimiter::new(0, true);
    assert_eq!((l.permits(), l.min_delay_ms()), (1, 100));
    assert_eq!(RateLimiter::new(3, false).min_delay_ms(), 333);
    let f = RateLimiterPresets::fast();
    assert_eq!((f.permits(), f.min_delay_ms(), f.is_adaptive()), (100, 10, false));
    let s = RateLimiterPresets::stealth();
    assert_eq!((s.permits(), s.min_delay_ms(), s.is_adaptive()), (2, 500, true));
    assert_eq!(RateLimiterPresets::custom(4).min_delay_ms(), 250);
    assert!(RateLimiterPresets::balanced().is_adaptive());
}

#[test]
fn rate_limiter_backoff() {
    let adaptive = RateLimiter::new(10, true);
    assert_eq!(adaptive.adapt(100, 429), 2000);
    assert_eq!(adaptive.adapt(100, 503), 2000);
    assert_eq!(adaptive.adapt(6000, 200), 500);
    assert_eq!(adaptive.adapt(5000, 200), 0);
    let plain = RateLimiter::new(10, false);
    assert_eq!(plain.adapt(6000, 500), 0);
}

#[test]
fn late_request_does_not_wait() {
    let mut l = RateLimiter::new(10, false);
    assert_eq!(l.acquire(0), 0);
    assert_eq!(l.acquire(30), 70);
    assert_eq!(l.acquire(1_000), 0);
}

#[test]
fn second_store_of_a_key_wins() {
    let mut cache = ScanCache::new(60);
    let fp = RequestFingerprint::new("http://t/a", "GET", "id=1");
    cache.insert_at(&fp, "first".to_string(), 0);
    cache.insert_at(&fp, "second".to_string(), 10);
    assert_eq!(cache.get_at(&fp, 20), Some("second".to_string()));
    assert_eq!(cache.stats_at(20).total_entries, 1);
}

#[test]
fn limiter_at_the_end_of_the_clock() {
    let mut l = RateLimiter::new(usize::MAX, false);
    assert_eq!(l.min_delay_ms(), 0);
    let mut slow = RateLimiter::new(1, false);
    assert_eq!(slow.acquire(u64::MAX - 10), 0);
    assert_eq!(slow.acquire(u64::MAX - 5), 5);
    assert_eq!(l.acquire(7), 0);
}
