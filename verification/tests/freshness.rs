use vidcache::coordinator::is_cache_valid;

#[test]
fn fresh_strictly_before_expiry() {
    // writtenAt = 0, ttl = 86400: fresh one second before the boundary
    assert!(is_cache_valid(0, 86400, 86399));
}

#[test]
fn stale_at_the_exact_boundary() {
    assert!(!is_cache_valid(0, 86400, 86400));
}

#[test]
fn stale_past_the_boundary() {
    assert!(!is_cache_valid(0, 86400, 86401));
}

#[test]
fn freshness_shifts_with_the_write_time() {
    assert!(is_cache_valid(1000, 60, 1059));
    assert!(!is_cache_valid(1000, 60, 1060));
}

#[test]
fn extreme_times_do_not_overflow() {
    assert!(is_cache_valid(i64::MAX, i64::MAX, 0));
    assert!(!is_cache_valid(i64::MIN, 0, 0));
    assert!(!is_cache_valid(0, i64::MIN, i64::MAX));
}
