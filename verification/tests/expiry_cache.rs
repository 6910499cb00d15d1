use xbox::cache::expiry_cache::micros_since_epoch;
use xbox::cache::{CachedToken, ExpiryTokenCache, InMemoryPersister, Lookup};

const NOW: i64 = 1_750_000_000_000_000;
const SECOND: i64 = 1_000_000;
const HOUR: i64 = 3_600 * SECOND;

/// Runs one lookup the way a caller of the cache does: a hit reads the cached value, a leader
/// runs `fetch` and reports its outcome.
fn get_or_refresh(
    cache: &mut ExpiryTokenCache<i32>,
    now: i64,
    calls: &mut usize,
    fetch: impl FnOnce() -> Result<CachedToken<i32>, String>,
) -> Result<i32, String> {
    match cache.get_or_refresh(now) {
        Lookup::Hit => Ok(*cache.get_existing(now).unwrap()),
        Lookup::Follow => Err("refresh already under way".to_string()),
        Lookup::Lead => {
            *calls += 1;
            let result = fetch();
            cache.complete_refresh(result.as_ref().ok().cloned());
            result.map(|cached| cached.value)
        }
    }
}

#[test]
fn returns_fresh_value_without_refetch() {
    let mut cache: ExpiryTokenCache<i32> = ExpiryTokenCache::new();
    let mut calls = 0;
    let v = get_or_refresh(&mut cache, NOW, &mut calls, || {
        Ok(CachedToken::new(42, NOW + HOUR))
    })
    .unwrap();
    assert_eq!(v, 42);
    let v = get_or_refresh(&mut cache, NOW, &mut calls, || {
        Ok(CachedToken::new(99, NOW + HOUR))
    })
    .unwrap();
    assert_eq!(v, 42, "second call should return the cached value");
    assert_eq!(calls, 1);
}

#[test]
fn refreshes_after_expiry() {
    let mut cache: ExpiryTokenCache<i32> = ExpiryTokenCache::new();
    let mut calls = 0;
    get_or_refresh(&mut cache, NOW, &mut calls, || Ok(CachedToken::new(1, NOW - SECOND)))
        .unwrap();
    let v = get_or_refresh(&mut cache, NOW, &mut calls, || {
        Ok(CachedToken::new(2, NOW + HOUR))
    })
    .unwrap();
    assert_eq!(v, 2);
}

#[test]
fn invalidate_forces_refetch() {
    let mut cache: ExpiryTokenCache<i32> = ExpiryTokenCache::new();
    let mut calls = 0;
    get_or_refresh(&mut cache, NOW, &mut calls, || Ok(CachedToken::new(1, NOW + HOUR)))
        .unwrap();
    cache.invalidate();
    let v = get_or_refresh(&mut cache, NOW, &mut calls, || {
        Ok(CachedToken::new(2, NOW + HOUR))
    })
    .unwrap();
    assert_eq!(v, 2);
}

#[test]
fn concurrent_callers_single_flight() {
    let mut cache: ExpiryTokenCache<i32> = ExpiryTokenCache::new();
    // Sixteen callers arrive while the first one's refresh is still under way.
    let mut leaders = 0;
    for _ in 0..16 {
        if cache.get_or_refresh(NOW) == Lookup::Lead {
            leaders += 1;
        }
    }
    cache.complete_refresh(Some(CachedToken::new(7, NOW + HOUR)));
    for _ in 0..16 {
        assert_eq!(cache.get_or_refresh(NOW), Lookup::Hit);
        assert_eq!(cache.get_existing(NOW), Some(&7));
    }
    assert_eq!(leaders, 1, "only one fetch should have run for all concurrent callers");
}

#[test]
fn error_does_not_poison_the_cache() {
    let mut cache: ExpiryTokenCache<i32> = ExpiryTokenCache::new();
    let mut calls = 0;
    let err = get_or_refresh(&mut cache, NOW, &mut calls, || Err("boom".to_string())).unwrap_err();
    assert_eq!(err, "boom");
    let v = get_or_refresh(&mut cache, NOW, &mut calls, || {
        Ok(CachedToken::new(5, NOW + HOUR))
    })
    .unwrap();
    assert_eq!(v, 5);
}

#[test]
fn get_existing_returns_none_when_empty() {
    let cache: ExpiryTokenCache<i32> = ExpiryTokenCache::new();
    assert_eq!(cache.get_existing(NOW), None);
}

#[test]
fn get_existing_returns_cached_value() {
    let mut cache: ExpiryTokenCache<i32> = ExpiryTokenCache::new();
    let mut calls = 0;
    get_or_refresh(&mut cache, NOW, &mut calls, || Ok(CachedToken::new(3, NOW + HOUR)))
        .unwrap();
    assert_eq!(cache.get_existing(NOW), Some(&3));
}

#[test]
fn value_within_skew_window_is_stale() {
    let mut cache: ExpiryTokenCache<i32> = ExpiryTokenCache::new();
    assert_eq!(cache.get_or_refresh(NOW), Lookup::Lead);
    cache.complete_refresh(Some(CachedToken::new(8, NOW + 60 * SECOND)));
    assert_eq!(cache.get_existing(NOW), None);
    assert_eq!(cache.get_existing(NOW - 1), Some(&8));
    assert_eq!(cache.get_or_refresh(NOW - 1), Lookup::Hit);
    assert_eq!(cache.get_or_refresh(NOW), Lookup::Lead);
    assert_eq!(cache.get_or_refresh(NOW), Lookup::Follow);
}

#[test]
fn lookup_during_refresh_follows() {
    let mut cache: ExpiryTokenCache<i32> = ExpiryTokenCache::new();
    assert_eq!(cache.get_or_refresh(NOW), Lookup::Lead);
    assert_eq!(cache.get_or_refresh(NOW), Lookup::Follow);
    assert_eq!(cache.get_existing(NOW), None);
    cache.invalidate();
    assert_eq!(cache.get_or_refresh(NOW), Lookup::Lead);
}

#[test]
fn lookups_at_the_current_time() {
    let mut cache: ExpiryTokenCache<i32> = ExpiryTokenCache::new();
    assert_eq!(cache.get_or_refresh_now(), Some(Lookup::Lead));
    cache.complete_refresh(Some(CachedToken::new(11, i64::MAX)));
    assert_eq!(cache.get_or_refresh_now(), Some(Lookup::Hit));
    assert_eq!(cache.get_existing_now(), Some(Some(&11)));
    cache.complete_refresh(Some(CachedToken::new(12, 0)));
    assert_eq!(cache.get_existing_now(), Some(None));
    assert!(xbox::cache::expiry_cache::current_time_micros().unwrap() > NOW);
}

#[test]
fn extreme_times_do_not_overflow() {
    let mut cache: ExpiryTokenCache<i32> = ExpiryTokenCache::new();
    cache.complete_refresh(Some(CachedToken::new(1, i64::MAX)));
    assert_eq!(cache.get_existing(i64::MAX), None);
    assert_eq!(cache.get_existing(i64::MIN), Some(&1));
}

#[test]
fn in_memory_persister_keeps_nothing() {
    let persister = InMemoryPersister::default();
    persister.save(&CachedToken::new(1, NOW));
    assert!(persister.load::<i32>().is_none());
    persister.clear();
    assert!(persister.load::<i32>().is_none());
}

#[test]
fn abandoned_refresh_is_led_anew() {
    let mut cache: ExpiryTokenCache<i32> = ExpiryTokenCache::new();
    assert_eq!(cache.get_or_refresh(NOW), Lookup::Lead);
    assert_eq!(cache.get_or_refresh(NOW), Lookup::Follow);
    cache.abandon_refresh();
    assert_eq!(cache.get_or_refresh(NOW), Lookup::Lead);
    cache.complete_refresh(Some(CachedToken::new(4, NOW + HOUR)));
    cache.abandon_refresh();
    assert_eq!(cache.get_existing(NOW), Some(&4));
}

#[test]
fn clock_readings_count_microseconds() {
    assert_eq!(micros_since_epoch(0, 0), Some(0));
    assert_eq!(micros_since_epoch(1_750_000_000, 123_456), Some(1_750_000_000_123_456));
    assert_eq!(micros_since_epoch(9_223_372_036_854, 775_807), Some(i64::MAX));
    assert_eq!(micros_since_epoch(9_223_372_036_854, 775_808), None);
    assert_eq!(micros_since_epoch(u64::MAX, 999_999), None);
}
