use newspoll::cache::TimedEntryCache;
use newspoll::coalesce::fetch_or_compute;
use newspoll::errors::ApiError;
use newspoll::operation::ScriptedOperation;

const TTL_MS: u64 = 60_000;

#[test]
fn cache_hit_invokes_producer_exactly_once() {
    // Two fetches for the same key within the TTL window: the producer runs
    // once, and the second call returns the first call's value unchanged.
    let mut cache = TimedEntryCache::new(4);
    let mut op = ScriptedOperation::new(vec![
        Ok("fresh".to_string()),
        Ok("should never be fetched".to_string()),
    ]);
    let first = fetch_or_compute(&mut cache, "key", &mut op, TTL_MS, 1_000);
    assert_eq!(first, Ok("fresh".to_string()));
    assert_eq!(op.calls_made(), 1);

    let second = fetch_or_compute(&mut cache, "key", &mut op, TTL_MS, 1_000 + TTL_MS - 1);
    assert_eq!(second, Ok("fresh".to_string()));
    assert_eq!(op.calls_made(), 1);
}

#[test]
fn expired_entry_behaves_as_miss_and_refetches() {
    // Once the stamped age reaches the TTL the entry is treated as a miss:
    // the producer runs again and its new value replaces the old one.
    let mut cache = TimedEntryCache::new(4);
    let mut op = ScriptedOperation::new(vec![
        Ok("first".to_string()),
        Ok("second".to_string()),
    ]);
    let first = fetch_or_compute(&mut cache, "key", &mut op, TTL_MS, 1_000);
    assert_eq!(first, Ok("first".to_string()));

    let after_expiry = fetch_or_compute(&mut cache, "key", &mut op, TTL_MS, 1_000 + TTL_MS);
    assert_eq!(after_expiry, Ok("second".to_string()));
    assert_eq!(op.calls_made(), 2);
}

#[test]
fn failure_caches_nothing() {
    let mut cache = TimedEntryCache::new(4);
    let mut op: ScriptedOperation<String, ApiError> =
        ScriptedOperation::new(vec![Err(ApiError::NoEndpointProvided)]);
    let r = fetch_or_compute(&mut cache, "key", &mut op, TTL_MS, 1_000);
    assert!(matches!(r, Err(ApiError::NoEndpointProvided)));
    assert_eq!(cache.get("key"), None);
    assert_eq!(cache.len(), 0);
}

#[test]
fn distinct_keys_fetch_independently() {
    let mut cache = TimedEntryCache::new(4);
    let mut op = ScriptedOperation::new(vec![Ok("a".to_string()), Ok("b".to_string())]);
    let ra = fetch_or_compute(&mut cache, "ka", &mut op, TTL_MS, 10);
    let rb = fetch_or_compute(&mut cache, "kb", &mut op, TTL_MS, 20);
    assert_eq!(ra, Ok("a".to_string()));
    assert_eq!(rb, Ok("b".to_string()));
    assert_eq!(op.calls_made(), 2);
}

#[test]
fn stale_entry_is_evicted_even_when_refetch_fails() {
    let mut cache = TimedEntryCache::new(4);
    let mut op = ScriptedOperation::new(vec![
        Ok("v".to_string()),
        Err(ApiError::JsonParseError { message: "bad body".to_string() }),
    ]);
    let _ = fetch_or_compute(&mut cache, "key", &mut op, TTL_MS, 0);
    let r = fetch_or_compute(&mut cache, "key", &mut op, TTL_MS, TTL_MS);
    assert!(r.is_err());
    assert_eq!(cache.get("key"), None);
}
