//! Cache-or-fetch coalescing.
//!
//! Given a key and a producer operation, serve the cached value while it is
//! fresh; otherwise evict the stale entry, run the producer, and store a
//! successful result under the key.  Nothing is cached on failure.

use vstd::prelude::*;

verus! {

use crate::cache::{
    TimedEntryCache,
    EntryModel,
    contains_key,
    entry_of,
    remove_key,
    promote_model,
    put_model,
    distinct_keys,
    lemma_remove_key,
    lemma_remove_key_noop,
    lemma_put_model_wf,
};
use crate::errors::ApiError;
use crate::operation::FetchOperation;

/// How old a stamp is at `now_ms`; stamps from the future count as age zero.
pub open spec fn age_of(stamp: u64, now_ms: u64) -> int {
    if now_ms >= stamp {
        now_ms - stamp
    } else {
        0
    }
}

/// An entry stamped at `stamp` is still fresh at `now_ms` if its age is below
/// the time-to-live.
pub open spec fn is_fresh(stamp: u64, ttl_ms: u64, now_ms: u64) -> bool {
    age_of(stamp, now_ms) < ttl_ms
}

/// Whether a fetch for `k` at `now_ms` is served from the cache contents `s`.
pub open spec fn fresh_hit(s: Seq<EntryModel>, k: Seq<char>, ttl_ms: u64, now_ms: u64) -> bool {
    contains_key(s, k) && is_fresh(entry_of(s, k).1, ttl_ms, now_ms)
}

/// Whether an entry stamped at `stamp` is still fresh at `now_ms`: drivers
/// that hold the cache across suspension points make the same freshness
/// decision the coalescer makes.
pub fn entry_is_fresh(stamp: u64, ttl_ms: u64, now_ms: u64) -> (r: bool)
    ensures
        r == is_fresh(stamp, ttl_ms, now_ms),
{
    let age: u64 = if now_ms >= stamp {
        now_ms - stamp
    } else {
        0
    };
    age < ttl_ms
}

/// Returns the cached value under `key` while it is fresh at `now_ms`;
/// otherwise drops whatever was stored under `key`, invokes the producer
/// exactly once, and caches the value it returns on success.  A failure is
/// handed back unchanged with nothing cached.
pub fn fetch_or_compute<O: FetchOperation<String, ApiError>>(
    cache: &mut TimedEntryCache,
    key: &str,
    op: &mut O,
    ttl_ms: u64,
    now_ms: u64,
) -> (r: Result<String, ApiError>)
    requires
        old(cache).wf(),
        old(op).inv(),
        old(op).calls() < old(op).limit(),
    ensures
        final(cache).wf(),
        final(cache).capacity() == old(cache).capacity(),
        final(op).inv(),
        final(op).limit() == old(op).limit(),
        forall|n: nat| final(op).outcome(n) == old(op).outcome(n),
        fresh_hit(old(cache).entries(), key@, ttl_ms, now_ms) ==> ({
            &&& final(op).calls() == old(op).calls()
            &&& r matches Ok(v) && v@ == entry_of(old(cache).entries(), key@).0
            &&& final(cache).entries() == promote_model(old(cache).entries(), key@)
        }),
        !fresh_hit(old(cache).entries(), key@, ttl_ms, now_ms) ==> ({
            &&& final(op).calls() == old(op).calls() + 1
            &&& r == old(op).outcome(old(op).calls() + 1)
            &&& (r matches Ok(v) ==> final(cache).entries() == put_model(
                remove_key(old(cache).entries(), key@),
                old(cache).capacity(),
                key@,
                (v@, now_ms),
            ))
            &&& (r is Err ==> final(cache).entries() == remove_key(old(cache).entries(), key@))
        }),
{
    let ghost s0 = old(cache).entries();
    match cache.get(key) {
        Some(e) => {
            let (value, stamp) = e;
            let age: u64 = if now_ms >= stamp {
                now_ms - stamp
            } else {
                0
            };
            if age < ttl_ms {
                return Ok(value);
            }
            let _ = cache.pop(key);
            proof {
                lemma_remove_key(s0, key@);
                lemma_remove_key_noop(remove_key(s0, key@), key@);
                assert(promote_model(s0, key@).drop_first() =~= remove_key(s0, key@));
            }
        },
        None => {
            proof {
                lemma_remove_key_noop(s0, key@);
            }
        },
    }
    let r = op.invoke();
    match r {
        Ok(v) => {
            cache.put(key.to_owned(), v.clone(), now_ms);
            Ok(v)
        },
        Err(e) => Err(e),
    }
}

/// LAW (cache hit): a value stored under `k` at `t0` is a fresh hit, with
/// that same value, for any fetch at `t1` within the TTL window; the
/// coalescer therefore serves it without invoking the producer again.
pub proof fn lemma_cache_hit_window(
    s: Seq<EntryModel>,
    cap: nat,
    k: Seq<char>,
    v: Seq<char>,
    t0: u64,
    t1: u64,
    ttl_ms: u64,
)
    requires
        1 <= cap,
        s.len() <= cap,
        distinct_keys(s),
        t0 <= t1,
        t1 - t0 < ttl_ms,
    ensures
        fresh_hit(put_model(s, cap, k, (v, t0)), k, ttl_ms, t1),
        entry_of(put_model(s, cap, k, (v, t0)), k) == (v, t0),
{
    lemma_put_model_wf(s, cap, k, (v, t0));
}

/// LAW (cache hit, composed): when a miss for `k` stores the produced value
/// at `t0` — the cache contents the coalescer leaves behind on a successful
/// miss — a second fetch for the same key within the TTL window is a fresh
/// hit carrying that same value, so the producer is not invoked again.
pub proof fn lemma_stored_value_hits(
    s: Seq<EntryModel>,
    cap: nat,
    k: Seq<char>,
    v: Seq<char>,
    t0: u64,
    t1: u64,
    ttl_ms: u64,
)
    requires
        1 <= cap,
        s.len() <= cap,
        distinct_keys(s),
        t0 <= t1,
        t1 - t0 < ttl_ms,
    ensures
        fresh_hit(put_model(remove_key(s, k), cap, k, (v, t0)), k, ttl_ms, t1),
        entry_of(put_model(remove_key(s, k), cap, k, (v, t0)), k) == (v, t0),
{
    lemma_remove_key(s, k);
    lemma_cache_hit_window(remove_key(s, k), cap, k, v, t0, t1, ttl_ms);
}

/// LAW (cache expiry): once the stamped age reaches the time-to-live, the
/// entry is no longer a fresh hit, so a fetch behaves as a miss and invokes
/// the producer again.
pub proof fn lemma_cache_expiry(s: Seq<EntryModel>, k: Seq<char>, ttl_ms: u64, now_ms: u64)
    requires
        contains_key(s, k),
        age_of(entry_of(s, k).1, now_ms) >= ttl_ms,
    ensures
        !fresh_hit(s, k, ttl_ms, now_ms),
{
}

} // verus!
