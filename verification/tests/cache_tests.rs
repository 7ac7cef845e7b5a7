use newspoll::cache::TimedEntryCache;

#[test]
fn put_then_get_returns_entry() {
    let mut cache = TimedEntryCache::new(4);
    cache.put("a".to_string(), "payload".to_string(), 17);
    let got = cache.get("a");
    assert_eq!(got, Some(("payload".to_string(), 17)));
    assert_eq!(cache.len(), 1);
}

#[test]
fn get_ignores_expiry_and_returns_stamp() {
    // The cache is a dumb store: freshness is the caller's concern, so even
    // an ancient stamp is handed back.
    let mut cache = TimedEntryCache::new(2);
    cache.put("old".to_string(), "v".to_string(), 0);
    assert_eq!(cache.get("old"), Some(("v".to_string(), 0)));
}

#[test]
fn put_replaces_value_under_same_key() {
    let mut cache = TimedEntryCache::new(2);
    cache.put("k".to_string(), "first".to_string(), 1);
    cache.put("k".to_string(), "second".to_string(), 2);
    assert_eq!(cache.len(), 1);
    assert_eq!(cache.get("k"), Some(("second".to_string(), 2)));
}

#[test]
fn pop_removes_entry() {
    let mut cache = TimedEntryCache::new(2);
    cache.put("k".to_string(), "v".to_string(), 5);
    assert_eq!(cache.pop("k"), Some(("v".to_string(), 5)));
    assert_eq!(cache.pop("k"), None);
    assert_eq!(cache.get("k"), None);
}

#[test]
fn capacity_overflow_evicts_least_recently_used() {
    // Capacity 2: inserting three distinct keys evicts the least recently
    // used one, and a later lookup of it misses.
    let mut cache = TimedEntryCache::new(2);
    cache.put("a".to_string(), "1".to_string(), 10);
    cache.put("b".to_string(), "2".to_string(), 20);
    cache.put("c".to_string(), "3".to_string(), 30);
    assert_eq!(cache.get("a"), None);
    assert_eq!(cache.len(), 2);
    assert!(cache.get("b").is_some());
    assert!(cache.get("c").is_some());
}

#[test]
fn get_refreshes_recency_order() {
    // Touching "a" makes "b" the least recently used entry, so the next
    // insert beyond capacity evicts "b", not "a".
    let mut cache = TimedEntryCache::new(2);
    cache.put("a".to_string(), "1".to_string(), 1);
    cache.put("b".to_string(), "2".to_string(), 2);
    let _ = cache.get("a");
    cache.put("c".to_string(), "3".to_string(), 3);
    assert!(cache.get("a").is_some());
    assert_eq!(cache.get("b"), None);
    assert!(cache.get("c").is_some());
}

#[test]
fn distinct_keys_coexist() {
    let mut cache = TimedEntryCache::new(8);
    for (k, v) in [("x", "1"), ("y", "2"), ("z", "3")] {
        cache.put(k.to_string(), v.to_string(), 7);
    }
    assert_eq!(cache.len(), 3);
    assert_eq!(cache.get("y"), Some(("2".to_string(), 7)));
}

#[test]
fn peek_does_not_refresh_recency_order() {
    // Peeking at "a" leaves it least recently used, so the insert beyond
    // capacity still evicts "a".
    let mut cache = TimedEntryCache::new(2);
    cache.put("a".to_string(), "1".to_string(), 1);
    cache.put("b".to_string(), "2".to_string(), 2);
    assert_eq!(cache.peek("a"), Some(("1".to_string(), 1)));
    cache.put("c".to_string(), "3".to_string(), 3);
    assert_eq!(cache.peek("a"), None);
    assert!(cache.peek("b").is_some());
    assert!(cache.peek("c").is_some());
}
