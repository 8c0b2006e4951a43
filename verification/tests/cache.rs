use mcp_datadog::cache::{create_cache_key, CacheEntry, DataCache, GenericCache};
use mcp_datadog::error::DatadogError;
use std::hash::{Hash, Hasher};
use std::time::Duration;

const MILLI: u128 = 1_000_000;

fn object(fields: Vec<(&str, serde_json::Value)>) -> serde_json::Value {
    let mut map = serde_json::Map::new();
    for (key, value) in fields {
        map.insert(key.to_string(), value);
    }
    serde_json::Value::Object(map)
}

#[test]
fn test_cache_set_and_get() {
    let mut cache: GenericCache<String> = GenericCache::new(Duration::from_secs(60), 100);

    cache.set("key1".to_string(), "value1".to_string());

    let result = cache.get("key1");
    assert_eq!(result, Some("value1".to_string()));
}

#[test]
fn test_cache_miss() {
    let mut cache: GenericCache<String> = GenericCache::new(Duration::from_secs(60), 100);

    let result = cache.get("nonexistent");
    assert_eq!(result, None);
}

#[test]
fn test_cache_ttl_expiration() {
    let mut cache: GenericCache<String> = GenericCache::new(Duration::from_millis(100), 100);

    cache.set_at("key1".to_string(), "value1".to_string(), 0);

    // Should exist immediately
    assert_eq!(cache.get_at("key1", 0), Some("value1".to_string()));

    // Should be expired 150 ms later
    assert_eq!(cache.get_at("key1", 150 * MILLI), None);
    assert_eq!(cache.len(), 0);
}

#[test]
fn test_cache_get_or_fetch_hit() {
    let mut cache: GenericCache<i32> = GenericCache::new(Duration::from_secs(60), 100);

    // Pre-populate cache
    cache.set("key1".to_string(), 42);

    // Fetch should return cached value without calling fetch function
    let result = cache.get_or_fetch("key1", || Ok(100));
    assert_eq!(result.unwrap(), 42); // Should be cached value, not 100
}

#[test]
fn test_cache_get_or_fetch_miss() {
    let mut cache: GenericCache<i32> = GenericCache::new(Duration::from_secs(60), 100);

    // Fetch should call the function and cache the result
    let result = cache.get_or_fetch("key1", || Ok(42));
    assert_eq!(result.unwrap(), 42);

    // Second fetch should return cached value
    let result2 = cache.get("key1");
    assert_eq!(result2, Some(42));
}

#[test]
fn test_cache_cleanup_expired() {
    let mut cache: GenericCache<String> = GenericCache::new(Duration::from_millis(50), 100);

    // Add some entries
    cache.set_at("key1".to_string(), "value1".to_string(), 0);
    cache.set_at("key2".to_string(), "value2".to_string(), 0);

    // Cleanup 100 ms later should remove expired entries
    let removed = cache.cleanup_expired_at(100 * MILLI);
    assert_eq!(removed, 2);
    assert_eq!(cache.len(), 0);
}

#[test]
fn test_create_cache_key() {
    let cpu = object(vec![("query", serde_json::Value::String("cpu".to_string()))]);
    let mem = object(vec![("query", serde_json::Value::String("mem".to_string()))]);
    let key1 = create_cache_key("/api/metrics", &serde_json::to_string(&cpu).unwrap());
    let key2 = create_cache_key("/api/metrics", &serde_json::to_string(&cpu).unwrap());
    let key3 = create_cache_key("/api/metrics", &serde_json::to_string(&mem).unwrap());

    // Same params should create same key
    assert_eq!(key1, key2);

    // Different params should create different key
    assert_ne!(key1, key3);

    // Keys should start with endpoint
    assert!(key1.starts_with("/api/metrics:"));
}

#[test]
fn test_create_cache_key_is_endpoint_and_lower_hex() {
    let key = create_cache_key("monitors", "{\"tags\":null}");
    let (endpoint, digits) = key.split_once(':').unwrap();
    assert_eq!(endpoint, "monitors");
    assert!(!digits.is_empty() && digits.len() <= 16);
    assert!(digits.chars().all(|c| c.is_ascii_digit() || ('a'..='f').contains(&c)));
    assert!(digits == "0" || !digits.starts_with('0'));
    // The digits are the hash itself: hashing is not skipped.
    let expected = {
        let mut hasher = std::collections::hash_map::DefaultHasher::new();
        "{\"tags\":null}".to_string().hash(&mut hasher);
        format!("{:x}", hasher.finish())
    };
    assert_eq!(digits, expected);
}

#[test]
fn test_concurrent_cache_access() {
    let mut cache: GenericCache<i32> = GenericCache::new(Duration::from_secs(60), 100);

    // Writers take the cache one after another, in some order
    for i in (0..10).rev() {
        cache.set(format!("key{}", i), i);
    }

    // Verify all writes succeeded
    for i in 0..10 {
        let result = cache.get(&format!("key{}", i));
        assert_eq!(result, Some(i));
    }
}

#[test]
fn test_cache_entry_age_and_access() {
    let mut entry = CacheEntry::new("v".to_string(), 10);
    assert_eq!(entry.age(10), 0);
    assert_eq!(entry.age(25), 15);
    // A reading from before the entry was stored counts as age zero.
    assert_eq!(entry.age(3), 0);
    assert_eq!(entry.access(30), "v".to_string());
    assert_eq!(entry.age(40), 30);
}

#[test]
fn test_cache_expiry_boundary() {
    let mut cache: GenericCache<i32> = GenericCache::new(Duration::from_nanos(100), 10);
    cache.set_at("k".to_string(), 7, 1_000);
    // One nanosecond before the time to live is reached: served.
    assert_eq!(cache.get_at("k", 1_099), Some(7));
    // At the time to live: not served, and removed.
    assert_eq!(cache.get_at("k", 1_100), None);
    assert_eq!(cache.len(), 0);
    // A second entry, read just past the time to live.
    cache.set_at("k".to_string(), 8, 2_000);
    assert_eq!(cache.get_at("k", 2_101), None);
}

#[test]
fn test_cache_sweep_keeps_what_is_not_older_than_ttl() {
    let mut cache: GenericCache<i32> = GenericCache::new(Duration::from_nanos(100), 10);
    cache.set_at("old".to_string(), 1, 0);
    cache.set_at("edge".to_string(), 2, 50);
    cache.set_at("young".to_string(), 3, 120);
    // At 150 the ages are 150, 100 and 30: only the first exceeds 100.
    assert_eq!(cache.cleanup_expired_at(150), 1);
    assert_eq!(cache.len(), 2);
    assert_eq!(cache.get_at("young", 150), Some(3));
    // The entry exactly as old as the time to live was kept by the sweep,
    // but a read does not serve it.
    assert_eq!(cache.get_at("edge", 150), None);
    assert_eq!(cache.get_at("old", 150), None);
    assert_eq!(cache.cleanup_expired_at(150), 0);
}

#[test]
fn test_cache_evicts_least_recently_used() {
    let mut cache: GenericCache<i32> = GenericCache::new(Duration::from_secs(60), 3);
    cache.set_at("a".to_string(), 1, 10);
    cache.set_at("b".to_string(), 2, 20);
    cache.set_at("c".to_string(), 3, 30);
    // Reading "a" makes "b" the least recently used.
    assert_eq!(cache.get_at("a", 40), Some(1));
    cache.set_at("d".to_string(), 4, 50);
    assert_eq!(cache.len(), 3);
    assert_eq!(cache.get_at("b", 60), None);
    assert_eq!(cache.get_at("a", 60), Some(1));
    assert_eq!(cache.get_at("c", 60), Some(3));
    assert_eq!(cache.get_at("d", 60), Some(4));
}

#[test]
fn test_cache_overwrite_does_not_evict() {
    let mut cache: GenericCache<i32> = GenericCache::new(Duration::from_secs(60), 2);
    cache.set_at("a".to_string(), 1, 10);
    cache.set_at("b".to_string(), 2, 20);
    cache.set_at("a".to_string(), 11, 30);
    assert_eq!(cache.len(), 2);
    assert_eq!(cache.get_at("a", 40), Some(11));
    assert_eq!(cache.get_at("b", 40), Some(2));
}

#[test]
fn test_cache_of_capacity_zero_holds_the_last_entry() {
    let mut cache: GenericCache<i32> = GenericCache::new(Duration::from_secs(60), 0);
    cache.set_at("a".to_string(), 1, 10);
    assert_eq!(cache.len(), 1);
    cache.set_at("b".to_string(), 2, 20);
    assert_eq!(cache.len(), 1);
    assert_eq!(cache.get_at("a", 30), None);
    assert_eq!(cache.get_at("b", 30), Some(2));
}

#[test]
fn test_cache_get_or_fetch_failure_caches_nothing() {
    let mut cache: GenericCache<i32> = GenericCache::new(Duration::from_secs(60), 10);
    let outcome = cache.get_or_fetch_at("k", 0, || Err(DatadogError::TimeoutError), 5);
    assert_eq!(outcome, Err(DatadogError::TimeoutError));
    assert_eq!(cache.len(), 0);
    assert_eq!(cache.get_at("k", 10), None);
}

#[test]
fn test_cache_get_or_fetch_calls_producer_once_on_miss_and_never_on_hit() {
    let calls = std::cell::Cell::new(0);
    let mut cache: GenericCache<i32> = GenericCache::new(Duration::from_secs(60), 10);
    let first = cache.get_or_fetch_at(
        "k",
        0,
        || {
            calls.set(calls.get() + 1);
            Ok(5)
        },
        1,
    );
    assert_eq!(first, Ok(5));
    assert_eq!(calls.get(), 1);
    let second = cache.get_or_fetch_at(
        "k",
        2,
        || {
            calls.set(calls.get() + 1);
            Ok(6)
        },
        3,
    );
    assert_eq!(second, Ok(5));
    assert_eq!(calls.get(), 1);
    // Once the entry has expired the producer is asked again.
    let third = cache.get_or_fetch_at(
        "k",
        61_000_000_000,
        || {
            calls.set(calls.get() + 1);
            Ok(7)
        },
        61_000_000_001,
    );
    assert_eq!(third, Ok(7));
    assert_eq!(calls.get(), 2);
}

#[test]
fn test_data_cache_sweeps_all_kinds() {
    let mut cache = DataCache::new(300);
    cache.set_dashboards("d".to_string(), Vec::new());
    cache.set_monitors("m".to_string(), Vec::new());
    cache.set_events("e".to_string(), Vec::new());
    // Nothing is five minutes old yet.
    assert_eq!(cache.cleanup_all_expired(), 0);
    let monitors = cache.get_or_fetch_monitors("m", || Err(DatadogError::RateLimitError));
    assert_eq!(monitors.unwrap().len(), 0);
    let events = cache.get_or_fetch_events("other", || Err(DatadogError::RateLimitError));
    assert!(matches!(events, Err(DatadogError::RateLimitError)));
    let dashboards = cache.get_or_fetch_dashboards("d", || Ok(Vec::new()));
    assert!(dashboards.is_ok());
}

#[test]
fn test_data_cache_with_zero_ttl_sweeps_nothing_at_once_but_serves_nothing() {
    let mut cache = DataCache::new(0);
    cache.set_monitors("m".to_string(), Vec::new());
    let monitors = cache.get_or_fetch_monitors("m", || Err(DatadogError::TimeoutError));
    assert!(matches!(monitors, Err(DatadogError::TimeoutError)));
}
