//! Fixed-capacity, least-recently-used map from string keys to timed entries.
//!
//! The store itself is `lru::LruCache`; its contents are modelled as a
//! sequence of key/entry pairs ordered from most recently used to least
//! recently used.  Freshness policy deliberately lives with the callers: `get`
//! returns an entry regardless of its age.

use vstd::prelude::*;

verus! {

/// A cached payload together with the time (in milliseconds) it was stamped.
pub type TimedEntry = (String, u64);

/// The model of one stored pair: key and (payload, stamp), as sequences of
/// characters and a number.
pub type EntryModel = (Seq<char>, (Seq<char>, u64));

type LruInner = lru::LruCache<String, TimedEntry, std::collections::hash_map::RandomState>;

#[verifier::external_type_specification]
#[verifier::external_body]
#[verifier::reject_recursive_types(K)]
#[verifier::reject_recursive_types(V)]
#[verifier::reject_recursive_types(S)]
pub struct ExLruCache<K, V, S>(lru::LruCache<K, V, S>);

/// What the store holds, ordered from most recently used (index 0) to least
/// recently used.
pub uninterp spec fn lru_entries(c: LruInner) -> Seq<EntryModel>;

/// The bound the store was created with.
pub uninterp spec fn lru_capacity(c: LruInner) -> nat;

/// The sequence with every pair whose key is `k` removed, order otherwise kept.
pub open spec fn remove_key(s: Seq<EntryModel>, k: Seq<char>) -> Seq<EntryModel>
    decreases s.len(),
{
    if s.len() == 0 {
        Seq::empty()
    } else if s[0].0 == k {
        remove_key(s.drop_first(), k)
    } else {
        seq![s[0]] + remove_key(s.drop_first(), k)
    }
}

/// Whether some pair in `s` has key `k`.
pub open spec fn contains_key(s: Seq<EntryModel>, k: Seq<char>) -> bool {
    exists|i: int| 0 <= i < s.len() && s[i].0 == k
}

/// The entry stored under `k` (at its first occurrence).
pub open spec fn entry_of(s: Seq<EntryModel>, k: Seq<char>) -> (Seq<char>, u64)
    decreases s.len(),
{
    if s.len() == 0 {
        (Seq::empty(), 0)
    } else if s[0].0 == k {
        s[0].1
    } else {
        entry_of(s.drop_first(), k)
    }
}

/// Each key occurs at most once in `s`.
pub open spec fn distinct_keys(s: Seq<EntryModel>) -> bool {
    forall|i: int, j: int| 0 <= i < j < s.len() ==> s[i].0 != s[j].0
}

/// The contents after `put(k, e)`: the pair moves to the front; a present key
/// is replaced; at capacity the least recently used pair is evicted.
pub open spec fn put_model(s: Seq<EntryModel>, cap: nat, k: Seq<char>, e: (Seq<char>, u64)) -> Seq<
    EntryModel,
> {
    if contains_key(s, k) {
        seq![(k, e)] + remove_key(s, k)
    } else if s.len() < cap {
        seq![(k, e)] + s
    } else {
        seq![(k, e)] + s.drop_last()
    }
}

/// The contents after a hit on `k`: the pair moves to the front.
pub open spec fn promote_model(s: Seq<EntryModel>, k: Seq<char>) -> Seq<EntryModel> {
    seq![(k, entry_of(s, k))] + remove_key(s, k)
}

/// Removing a key drops exactly the pairs with that key: the remaining pairs
/// keep their relative order, every other key keeps its first entry, and no
/// key is duplicated if none was.
pub proof fn lemma_remove_key(s: Seq<EntryModel>, k: Seq<char>)
    ensures
        remove_key(s, k).len() <= s.len(),
        !contains_key(remove_key(s, k), k),
        forall|i: int|
            0 <= i < remove_key(s, k).len() ==> s.contains(#[trigger] remove_key(s, k)[i]),
        forall|k2: Seq<char>|
            k2 != k ==> (#[trigger] contains_key(remove_key(s, k), k2) <==> contains_key(s, k2)),
        forall|k2: Seq<char>|
            k2 != k && contains_key(s, k2) ==> #[trigger] entry_of(remove_key(s, k), k2)
                == entry_of(s, k2),
        distinct_keys(s) ==> distinct_keys(remove_key(s, k)),
    decreases s.len(),
{
    let r = remove_key(s, k);
    if s.len() == 0 {
        assert(!contains_key(r, k));
    } else {
        let rest = s.drop_first();
        lemma_remove_key(rest, k);
        assert(forall|i: int| 0 <= i < rest.len() ==> rest[i] == s[i + 1]);
        assert(forall|i: int|
            0 <= i < remove_key(rest, k).len() && rest.contains(#[trigger] remove_key(rest, k)[i])
                ==> s.contains(remove_key(rest, k)[i]));
        if s[0].0 == k {
            assert forall|k2: Seq<char>| k2 != k && #[trigger] contains_key(s, k2) implies
                contains_key(rest, k2) by {
                let i = choose|i: int| 0 <= i < s.len() && s[i].0 == k2;
                assert(rest[i - 1].0 == k2);
            }
            assert forall|k2: Seq<char>| contains_key(rest, k2) implies #[trigger] contains_key(
                s,
                k2,
            ) by {
                let i = choose|i: int| 0 <= i < rest.len() && rest[i].0 == k2;
                assert(s[i + 1].0 == k2);
            }
        } else {
            assert(r == seq![s[0]] + remove_key(rest, k));
            assert(r[0] == s[0]);
            assert(forall|i: int| 1 <= i < r.len() ==> r[i] == remove_key(rest, k)[i - 1]);
            assert(!contains_key(r, k));
            assert forall|k2: Seq<char>| k2 != k && #[trigger] contains_key(s, k2) implies
                contains_key(r, k2) by {
                let i = choose|i: int| 0 <= i < s.len() && s[i].0 == k2;
                if i == 0 {
                    assert(r[0].0 == k2);
                } else {
                    assert(rest[i - 1].0 == k2);
                    assert(contains_key(rest, k2));
                    assert(contains_key(remove_key(rest, k), k2));
                    let j = choose|j: int|
                        0 <= j < remove_key(rest, k).len() && remove_key(rest, k)[j].0 == k2;
                    assert(r[j + 1].0 == k2);
                }
            }
            assert forall|k2: Seq<char>| k2 != k && #[trigger] contains_key(r, k2) implies
                contains_key(s, k2) by {
                let i = choose|i: int| 0 <= i < r.len() && r[i].0 == k2;
                if i == 0 {
                    assert(s[0].0 == k2);
                } else {
                    assert(remove_key(rest, k)[i - 1].0 == k2);
                    assert(contains_key(rest, k2));
                }
            }
            assert forall|k2: Seq<char>| k2 != k && contains_key(s, k2) implies #[trigger] entry_of(
                r,
                k2,
            ) == entry_of(s, k2) by {
                if s[0].0 == k2 {
                    assert(entry_of(s, k2) == s[0].1);
                    assert(entry_of(r, k2) == r[0].1);
                } else {
                    assert(r.drop_first() == remove_key(rest, k));
                    if contains_key(rest, k2) {
                        assert(entry_of(r, k2) == entry_of(remove_key(rest, k), k2));
                    } else {
                        let i = choose|i: int| 0 <= i < s.len() && s[i].0 == k2;
                        assert(i != 0);
                        assert(rest[i - 1].0 == k2);
                        assert(false);
                    }
                }
            }
            if distinct_keys(s) {
                assert(distinct_keys(rest));
                assert forall|i: int, j: int| 0 <= i < j < r.len() implies r[i].0 != r[j].0 by {
                    if i == 0 {
                        let e = remove_key(rest, k)[j - 1];
                        assert(rest.contains(e));
                        let m = choose|m: int| 0 <= m < rest.len() && rest[m] == e;
                        assert(s[0].0 != rest[m].0);
                    }
                }
            }
        }
    }
}

/// Removing an absent key changes nothing.
pub proof fn lemma_remove_key_noop(s: Seq<EntryModel>, k: Seq<char>)
    requires
        !contains_key(s, k),
    ensures
        remove_key(s, k) == s,
    decreases s.len(),
{
    if s.len() == 0 {
        assert(remove_key(s, k) =~= s);
    } else {
        let rest = s.drop_first();
        assert(s[0].0 != k);
        assert(!contains_key(rest, k)) by {
            if contains_key(rest, k) {
                let i = choose|i: int| 0 <= i < rest.len() && rest[i].0 == k;
                assert(s[i + 1].0 == k);
            }
        }
        lemma_remove_key_noop(rest, k);
        assert(remove_key(s, k) =~= s);
    }
}

/// The contents after inserting each pair of `items`, in order, into `s`.
pub open spec fn put_seq_model(s: Seq<EntryModel>, cap: nat, items: Seq<EntryModel>) -> Seq<
    EntryModel,
>
    decreases items.len(),
{
    if items.len() == 0 {
        s
    } else {
        put_seq_model(put_model(s, cap, items[0].0, items[0].1), cap, items.drop_first())
    }
}

proof fn lemma_put_seq_append(s: Seq<EntryModel>, cap: nat, a: Seq<EntryModel>, b: Seq<EntryModel>)
    ensures
        put_seq_model(s, cap, a + b) == put_seq_model(put_seq_model(s, cap, a), cap, b),
    decreases a.len(),
{
    if a.len() == 0 {
        assert(a + b =~= b);
    } else {
        assert((a + b)[0] == a[0]);
        assert((a + b).drop_first() =~= a.drop_first() + b);
        lemma_put_seq_append(put_model(s, cap, a[0].0, a[0].1), cap, a.drop_first(), b);
    }
}

/// Inserting distinct fresh keys that fit within the capacity stacks them in
/// front of the existing contents, most recent first.
proof fn lemma_fill_within_capacity(s: Seq<EntryModel>, cap: nat, items: Seq<EntryModel>)
    requires
        1 <= cap,
        distinct_keys(s),
        distinct_keys(items),
        forall|i: int| 0 <= i < items.len() ==> !contains_key(s, (#[trigger] items[i]).0),
        s.len() + items.len() <= cap,
    ensures
        put_seq_model(s, cap, items) == items.reverse() + s,
        distinct_keys(put_seq_model(s, cap, items)),
    decreases items.len(),
{
    if items.len() == 0 {
        assert(items.reverse() + s =~= s);
    } else {
        let first = items[0];
        let rest = items.drop_first();
        assert(first == (first.0, first.1));
        assert(!contains_key(s, first.0));
        assert(forall|j: int| 0 <= j < s.len() ==> (#[trigger] s[j]).0 != first.0);
        let stepped = put_model(s, cap, first.0, first.1);
        assert(stepped =~= seq![first] + s);
        assert(distinct_keys(stepped)) by {
            assert(forall|j: int| 1 <= j < stepped.len() ==> stepped[j] == s[j - 1]);
        }
        assert(forall|i: int| 0 <= i < rest.len() ==> rest[i] == items[i + 1]);
        assert forall|i: int| 0 <= i < rest.len() implies !contains_key(
            stepped,
            (#[trigger] rest[i]).0,
        ) by {
            assert(rest[i].0 != first.0);
            assert(!contains_key(s, rest[i].0));
            if contains_key(stepped, rest[i].0) {
                let j = choose|j: int| 0 <= j < stepped.len() && stepped[j].0 == rest[i].0;
                assert(j != 0);
                assert(s[j - 1].0 == rest[i].0);
            }
        }
        lemma_fill_within_capacity(stepped, cap, rest);
        assert(put_seq_model(s, cap, items) == rest.reverse() + (seq![first] + s));
        assert(items.reverse() + s =~= rest.reverse() + (seq![first] + s)) by {
            assert(forall|j: int|
                0 <= j < rest.len() ==> rest.reverse()[j] == items[items.len() - 1 - j]);
        }
    }
}

/// LAW: least-recently-used eviction.  Inserting `capacity + 1` pairwise
/// distinct keys into an empty cache leaves the first (least recently used)
/// key absent.
pub proof fn lemma_lru_eviction(items: Seq<EntryModel>, cap: nat)
    requires
        1 <= cap,
        items.len() == cap + 1,
        distinct_keys(items),
    ensures
        !contains_key(put_seq_model(Seq::empty(), cap, items), items[0].0),
{
    let n = items.len() as int;
    let a = items.take(n - 1);
    let b = items.skip(n - 1);
    assert(items =~= a + b);
    lemma_put_seq_append(Seq::empty(), cap, a, b);
    lemma_fill_within_capacity(Seq::empty(), cap, a);
    let filled = put_seq_model(Seq::empty(), cap, a);
    assert(filled =~= a.reverse());
    assert(filled.len() == cap);
    let last = items[n - 1];
    assert(b[0] == last && b.drop_first().len() == 0);
    let r = put_seq_model(filled, cap, b);
    let stepped = put_model(filled, cap, b[0].0, b[0].1);
    assert(r == put_seq_model(stepped, cap, b.drop_first()));
    assert(put_seq_model(stepped, cap, b.drop_first()) == stepped);
    assert(r == put_model(filled, cap, last.0, last.1));
    assert(!contains_key(filled, last.0)) by {
        if contains_key(filled, last.0) {
            let j = choose|j: int| 0 <= j < filled.len() && filled[j].0 == last.0;
            assert(filled[j] == a[a.len() - 1 - j]);
            assert(items[a.len() - 1 - j].0 == items[n - 1].0);
        }
    }
    assert(r == seq![(last.0, last.1)] + filled.drop_last());
    assert(!contains_key(r, items[0].0)) by {
        assert(last.0 != items[0].0);
        if contains_key(r, items[0].0) {
            let j = choose|j: int| 0 <= j < r.len() && r[j].0 == items[0].0;
            assert(j != 0);
            assert(r[j] == filled.drop_last()[j - 1]);
            assert(filled.drop_last()[j - 1] == filled[j - 1]);
            assert(filled[j - 1] == a[a.len() - j]);
            assert(a[a.len() - j] == items[n - 1 - j]);
            assert(items[n - 1 - j].0 == items[0].0);
            assert(n - 1 - j >= 1);
        }
    }
}

/// A put keeps the capacity bound and the uniqueness of keys.
pub proof fn lemma_put_model_wf(s: Seq<EntryModel>, cap: nat, k: Seq<char>, e: (Seq<char>, u64))
    requires
        1 <= cap,
        s.len() <= cap,
        distinct_keys(s),
    ensures
        put_model(s, cap, k, e).len() <= cap,
        distinct_keys(put_model(s, cap, k, e)),
        contains_key(put_model(s, cap, k, e), k),
        entry_of(put_model(s, cap, k, e), k) == e,
{
    let r = put_model(s, cap, k, e);
    lemma_remove_key(s, k);
    assert(r[0] == (k, e));
    assert(r[0].0 == k);
    if contains_key(s, k) {
        assert(remove_key(s, k).len() < s.len()) by {
            lemma_remove_key_shrinks(s, k);
        }
        assert forall|i: int, j: int| 0 <= i < j < r.len() implies r[i].0 != r[j].0 by {
            if i == 0 {
                assert(r[j] == remove_key(s, k)[j - 1]);
                assert(!contains_key(remove_key(s, k), k));
                assert(remove_key(s, k)[j - 1].0 != k);
            } else {
                assert(r[i] == remove_key(s, k)[i - 1] && r[j] == remove_key(s, k)[j - 1]);
            }
        }
    } else if s.len() < cap {
        assert forall|i: int, j: int| 0 <= i < j < r.len() implies r[i].0 != r[j].0 by {
            if i == 0 {
                assert(r[j] == s[j - 1]);
                assert(s[j - 1].0 != k);
            }
        }
    } else {
        let d = s.drop_last();
        assert forall|i: int, j: int| 0 <= i < j < r.len() implies r[i].0 != r[j].0 by {
            if i == 0 {
                assert(r[j] == d[j - 1]);
                assert(d[j - 1] == s[j - 1]);
                assert(s[j - 1].0 != k);
            } else {
                assert(r[i] == s[i - 1] && r[j] == s[j - 1]);
            }
        }
    }
}

/// Removing a present key makes the sequence strictly shorter.
proof fn lemma_remove_key_shrinks(s: Seq<EntryModel>, k: Seq<char>)
    requires
        contains_key(s, k),
    ensures
        remove_key(s, k).len() < s.len(),
    decreases s.len(),
{
    lemma_remove_key(s.drop_first(), k);
    if s[0].0 == k {
    } else {
        let i = choose|i: int| 0 <= i < s.len() && s[i].0 == k;
        assert(s.drop_first()[i - 1].0 == k);
        lemma_remove_key_shrinks(s.drop_first(), k);
    }
}

/// A hit keeps the capacity bound and the uniqueness of keys, and keeps the
/// entry itself.
pub proof fn lemma_promote_model_wf(s: Seq<EntryModel>, cap: nat, k: Seq<char>)
    requires
        1 <= cap,
        s.len() <= cap,
        contains_key(s, k),
        distinct_keys(s),
    ensures
        promote_model(s, k).len() <= cap,
        distinct_keys(promote_model(s, k)),
        contains_key(promote_model(s, k), k),
        entry_of(promote_model(s, k), k) == entry_of(s, k),
{
    let r = promote_model(s, k);
    lemma_remove_key(s, k);
    lemma_remove_key_shrinks(s, k);
    assert(r[0] == (k, entry_of(s, k)));
    assert forall|i: int, j: int| 0 <= i < j < r.len() implies r[i].0 != r[j].0 by {
        if i == 0 {
            assert(r[j] == remove_key(s, k)[j - 1]);
            assert(remove_key(s, k)[j - 1].0 != k);
        } else {
            assert(r[i] == remove_key(s, k)[i - 1] && r[j] == remove_key(s, k)[j - 1]);
        }
    }
}

/// Relies on `lru::LruCache::with_hasher`: builds an empty cache that holds at
/// most `cap` entries.
#[verifier::external_body]
fn lru_new(cap: usize) -> (c: LruInner)
    requires
        1 <= cap,
    ensures
        lru_entries(c) == Seq::<EntryModel>::empty(),
        lru_capacity(c) == cap as nat,
{
    let bound = std::num::NonZeroUsize::new(cap).unwrap();
    lru::LruCache::with_hasher(bound, std::collections::hash_map::RandomState::new())
}

/// Relies on `lru::LruCache::put`: a present key is updated and promoted to
/// most recently used and its old value returned; otherwise the pair is
/// inserted in front, evicting the least recently used entry if the cache is
/// at capacity.
#[verifier::external_body]
fn lru_put(c: &mut LruInner, k: String, e: TimedEntry) -> (replaced: Option<TimedEntry>)
    ensures
        lru_capacity(*final(c)) == lru_capacity(*old(c)),
        lru_entries(*final(c)) == put_model(
            lru_entries(*old(c)),
            lru_capacity(*old(c)),
            k@,
            (e.0@, e.1),
        ),
        match replaced {
            Some(prev) => contains_key(lru_entries(*old(c)), k@) && (prev.0@, prev.1) == entry_of(
                lru_entries(*old(c)),
                k@,
            ),
            None => !contains_key(lru_entries(*old(c)), k@),
        },
{
    c.put(k, e)
}

/// Relies on `lru::LruCache::get`: returns the entry under the key, promoting
/// it to most recently used; absent keys leave the cache unchanged.
#[verifier::external_body]
fn lru_get(c: &mut LruInner, k: &str) -> (r: Option<TimedEntry>)
    ensures
        lru_capacity(*final(c)) == lru_capacity(*old(c)),
        match r {
            Some(e) => contains_key(lru_entries(*old(c)), k@) && (e.0@, e.1) == entry_of(
                lru_entries(*old(c)),
                k@,
            ) && lru_entries(*final(c)) == promote_model(lru_entries(*old(c)), k@),
            None => !contains_key(lru_entries(*old(c)), k@) && lru_entries(*final(c)) == lru_entries(
                *old(c),
            ),
        },
{
    c.get(k).cloned()
}

/// Relies on `lru::LruCache::peek`: returns the entry under the key without
/// promoting it; the cache is untouched.
#[verifier::external_body]
fn lru_peek(c: &LruInner, k: &str) -> (r: Option<TimedEntry>)
    ensures
        match r {
            Some(e) => contains_key(lru_entries(*c), k@) && (e.0@, e.1) == entry_of(
                lru_entries(*c),
                k@,
            ),
            None => !contains_key(lru_entries(*c), k@),
        },
{
    c.peek(k).cloned()
}

/// Relies on `lru::LruCache::pop`: removes and returns the entry under the
/// key; the order of the remaining entries is kept.
#[verifier::external_body]
fn lru_pop(c: &mut LruInner, k: &str) -> (r: Option<TimedEntry>)
    ensures
        lru_capacity(*final(c)) == lru_capacity(*old(c)),
        lru_entries(*final(c)) == remove_key(lru_entries(*old(c)), k@),
        match r {
            Some(e) => contains_key(lru_entries(*old(c)), k@) && (e.0@, e.1) == entry_of(
                lru_entries(*old(c)),
                k@,
            ),
            None => !contains_key(lru_entries(*old(c)), k@),
        },
{
    c.pop(k)
}

/// Relies on `lru::LruCache::len`: the number of stored entries.
#[verifier::external_body]
fn lru_len(c: &LruInner) -> (n: usize)
    ensures
        n as nat == lru_entries(*c).len(),
{
    c.len()
}

/// How a handle on the cache was acquired: behind the single exclusive lock,
/// or as one of many readers, or as the writer, of a reader/writer lock.
#[derive(Clone, Copy, Debug, PartialEq, Eq, Structural)]
pub enum AccessMode {
    Exclusive,
    SharedRead,
    SharedWrite,
}

/// Whether a handle acquired in this mode may mutate the cache: a
/// shared-read handle may not.
pub open spec fn allows_mutation(mode: AccessMode) -> bool {
    !(mode is SharedRead)
}

/// Whether a handle acquired in this mode may mutate the cache.  A holder of
/// a shared-read handle must fail fast on a write attempt rather than reach
/// the store: [`TimedEntryCache::put`] and [`TimedEntryCache::pop`] are only
/// called behind a mode this function accepts.
pub fn mode_allows_mutation(mode: AccessMode) -> (r: bool)
    ensures
        r == allows_mutation(mode),
{
    match mode {
        AccessMode::SharedRead => false,
        AccessMode::Exclusive => true,
        AccessMode::SharedWrite => true,
    }
}

/// Bounded map from string keys to (payload, stamp) entries with
/// least-recently-used eviction.  Entries are owned by the cache; callers
/// receive copies.
pub struct TimedEntryCache {
    inner: LruInner,
}

impl TimedEntryCache {
    /// The stored pairs, most recently used first.
    pub closed spec fn entries(self) -> Seq<EntryModel> {
        lru_entries(self.inner)
    }

    /// The bound this cache was created with.
    pub closed spec fn capacity(self) -> nat {
        lru_capacity(self.inner)
    }

    /// At most `capacity` live entries, each key held once.
    pub open spec fn wf(self) -> bool {
        &&& 1 <= self.capacity()
        &&& self.entries().len() <= self.capacity()
        &&& distinct_keys(self.entries())
    }

    pub fn new(capacity: usize) -> (c: Self)
        requires
            1 <= capacity,
        ensures
            c.wf(),
            c.entries() == Seq::<EntryModel>::empty(),
            c.capacity() == capacity as nat,
    {
        TimedEntryCache { inner: lru_new(capacity) }
    }

    pub fn len(&self) -> (n: usize)
        ensures
            n as nat == self.entries().len(),
    {
        lru_len(&self.inner)
    }

    /// Inserts or replaces the entry under `key`, stamped with `now_ms`;
    /// evicts the least recently used entry if the capacity is exceeded.
    pub fn put(&mut self, key: String, value: String, now_ms: u64)
        requires
            old(self).wf(),
        ensures
            final(self).wf(),
            final(self).capacity() == old(self).capacity(),
            final(self).entries() == put_model(
                old(self).entries(),
                old(self).capacity(),
                key@,
                (value@, now_ms),
            ),
    {
        let ghost s0 = self.entries();
        let ghost cap = self.capacity();
        let ghost k = key@;
        let ghost e = (value@, now_ms);
        let _ = lru_put(&mut self.inner, key, (value, now_ms));
        proof {
            lemma_put_model_wf(s0, cap, k, e);
        }
    }

    /// Returns a copy of the entry under `key` regardless of its age,
    /// promoting it to most recently used; checking freshness is the caller's
    /// concern.
    pub fn get(&mut self, key: &str) -> (r: Option<TimedEntry>)
        requires
            old(self).wf(),
        ensures
            final(self).wf(),
            final(self).capacity() == old(self).capacity(),
            match r {
                Some(e) => contains_key(old(self).entries(), key@) && (e.0@, e.1) == entry_of(
                    old(self).entries(),
                    key@,
                ) && final(self).entries() == promote_model(old(self).entries(), key@),
                None => !contains_key(old(self).entries(), key@) && final(self).entries() == old(
                    self,
                ).entries(),
            },
    {
        let ghost s0 = self.entries();
        let ghost cap = self.capacity();
        let r = lru_get(&mut self.inner, key);
        proof {
            if contains_key(s0, key@) {
                lemma_promote_model_wf(s0, cap, key@);
            }
        }
        r
    }

    /// Returns a copy of the entry under `key` without touching the recency
    /// order: the read a shared-read handle is allowed.
    pub fn peek(&self, key: &str) -> (r: Option<TimedEntry>)
        ensures
            match r {
                Some(e) => contains_key(self.entries(), key@) && (e.0@, e.1) == entry_of(
                    self.entries(),
                    key@,
                ),
                None => !contains_key(self.entries(), key@),
            },
    {
        lru_peek(&self.inner, key)
    }

    /// Removes and returns the entry under `key`.
    pub fn pop(&mut self, key: &str) -> (r: Option<TimedEntry>)
        requires
            old(self).wf(),
        ensures
            final(self).wf(),
            final(self).capacity() == old(self).capacity(),
            final(self).entries() == remove_key(old(self).entries(), key@),
            match r {
                Some(e) => contains_key(old(self).entries(), key@) && (e.0@, e.1) == entry_of(
                    old(self).entries(),
                    key@,
                ),
                None => !contains_key(old(self).entries(), key@),
            },
    {
        let ghost s0 = self.entries();
        let r = lru_pop(&mut self.inner, key);
        proof {
            lemma_remove_key(s0, key@);
        }
        r
    }
}

} // verus!
