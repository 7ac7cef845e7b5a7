//! Ordered string-to-string parameter maps.
//!
//! Query parameters travel as a map from field names to values, modelled as
//! a sequence of key/value pairs with pairwise distinct keys.  Inserting
//! replaces a present key in place and appends an absent one; removing keeps
//! the order of the rest.

use vstd::prelude::*;

verus! {

use vstd::string::StringExecFns;
use crate::utils::str_eq;

/// The model of one parameter: field name and value.
pub type PairModel = (Seq<char>, Seq<char>);

/// The view of a vector of owned string pairs.
pub open spec fn pairs_view(s: Seq<(String, String)>) -> Seq<PairModel> {
    s.map_values(|p: (String, String)| (p.0@, p.1@))
}

/// Whether some pair in `s` has key `k`.
pub open spec fn pm_contains(s: Seq<PairModel>, k: Seq<char>) -> bool {
    exists|i: int| 0 <= i < s.len() && s[i].0 == k
}

/// The value stored under `k` (at its first occurrence).
pub open spec fn pm_value(s: Seq<PairModel>, k: Seq<char>) -> Seq<char>
    decreases s.len(),
{
    if s.len() == 0 {
        Seq::empty()
    } else if s[0].0 == k {
        s[0].1
    } else {
        pm_value(s.drop_first(), k)
    }
}

/// The map after `insert(k, v)`: a present key keeps its place with the new
/// value; an absent key is appended.
pub open spec fn pm_put(s: Seq<PairModel>, k: Seq<char>, v: Seq<char>) -> Seq<PairModel>
    decreases s.len(),
{
    if s.len() == 0 {
        seq![(k, v)]
    } else if s[0].0 == k {
        seq![(k, v)] + s.drop_first()
    } else {
        seq![s[0]] + pm_put(s.drop_first(), k, v)
    }
}

/// The map with every pair whose key is `k` removed, order otherwise kept.
pub open spec fn pm_remove(s: Seq<PairModel>, k: Seq<char>) -> Seq<PairModel>
    decreases s.len(),
{
    if s.len() == 0 {
        Seq::empty()
    } else if s[0].0 == k {
        pm_remove(s.drop_first(), k)
    } else {
        seq![s[0]] + pm_remove(s.drop_first(), k)
    }
}

/// Each key occurs at most once in `s`.
pub open spec fn pm_distinct(s: Seq<PairModel>) -> bool {
    forall|i: int, j: int| 0 <= i < j < s.len() ==> s[i].0 != s[j].0
}

/// An insert leaves the keys distinct, stores the new value under the key,
/// and keeps every other pair exactly where it was.
pub proof fn lemma_pm_put(s: Seq<PairModel>, k: Seq<char>, v: Seq<char>)
    requires
        pm_distinct(s),
    ensures
        pm_distinct(pm_put(s, k, v)),
        pm_contains(pm_put(s, k, v), k),
        pm_value(pm_put(s, k, v), k) == v,
        pm_contains(s, k) ==> pm_put(s, k, v).len() == s.len(),
        !pm_contains(s, k) ==> pm_put(s, k, v) == s.push((k, v)),
        forall|k2: Seq<char>|
            k2 != k ==> (#[trigger] pm_contains(pm_put(s, k, v), k2) <==> pm_contains(s, k2)),
        forall|k2: Seq<char>|
            k2 != k && pm_contains(s, k2) ==> #[trigger] pm_value(pm_put(s, k, v), k2) == pm_value(
                s,
                k2,
            ),
    decreases s.len(),
{
    let r = pm_put(s, k, v);
    if s.len() == 0 {
        assert(r =~= s.push((k, v)));
        assert(r[0] == (k, v));
    } else if s[0].0 == k {
        let rest = s.drop_first();
        assert(r == seq![(k, v)] + rest);
        assert(r[0] == (k, v));
        assert(forall|i: int| 1 <= i < r.len() ==> r[i] == rest[i - 1]);
        assert(forall|i: int| 0 <= i < rest.len() ==> rest[i] == s[i + 1]);
        assert forall|k2: Seq<char>| k2 != k implies (#[trigger] pm_contains(r, k2)
            <==> pm_contains(s, k2)) by {
            if pm_contains(r, k2) {
                let i = choose|i: int| 0 <= i < r.len() && r[i].0 == k2;
                assert(s[i].0 == k2);
            }
            if pm_contains(s, k2) {
                let i = choose|i: int| 0 <= i < s.len() && s[i].0 == k2;
                assert(i != 0);
                assert(r[i].0 == k2);
            }
        }
        assert forall|k2: Seq<char>| k2 != k && pm_contains(s, k2) implies #[trigger] pm_value(
            r,
            k2,
        ) == pm_value(s, k2) by {
            assert(r.drop_first() =~= rest);
            assert(pm_value(r, k2) == pm_value(rest, k2));
            assert(pm_value(s, k2) == pm_value(rest, k2));
        }
        assert(pm_distinct(r)) by {
            assert forall|i: int, j: int| 0 <= i < j < r.len() implies r[i].0 != r[j].0 by {
                if i == 0 {
                    assert(r[j].0 == s[j].0);
                    assert(s[0].0 != s[j].0);
                }
            }
        }
    } else {
        let rest = s.drop_first();
        lemma_pm_put(rest, k, v);
        assert(r == seq![s[0]] + pm_put(rest, k, v));
        assert(r[0] == s[0]);
        assert(forall|i: int| 1 <= i < r.len() ==> r[i] == pm_put(rest, k, v)[i - 1]);
        assert(forall|i: int| 0 <= i < rest.len() ==> rest[i] == s[i + 1]);
        assert(r.drop_first() =~= pm_put(rest, k, v));
        if !pm_contains(s, k) {
            assert(!pm_contains(rest, k)) by {
                if pm_contains(rest, k) {
                    let i = choose|i: int| 0 <= i < rest.len() && rest[i].0 == k;
                    assert(s[i + 1].0 == k);
                }
            }
            assert(r =~= s.push((k, v)));
        } else {
            assert(pm_contains(rest, k)) by {
                let i = choose|i: int| 0 <= i < s.len() && s[i].0 == k;
                assert(i != 0);
                assert(rest[i - 1].0 == k);
            }
        }
        assert forall|k2: Seq<char>| k2 != k implies (#[trigger] pm_contains(r, k2)
            <==> pm_contains(s, k2)) by {
            if pm_contains(r, k2) {
                if r[0].0 == k2 {
                } else {
                    let i = choose|i: int| 0 <= i < r.len() && r[i].0 == k2;
                    assert(i != 0);
                    assert(pm_contains(pm_put(rest, k, v), k2));
                    assert(pm_contains(rest, k2));
                    let m = choose|m: int| 0 <= m < rest.len() && rest[m].0 == k2;
                    assert(s[m + 1].0 == k2);
                }
            }
            if pm_contains(s, k2) {
                let i = choose|i: int| 0 <= i < s.len() && s[i].0 == k2;
                if i == 0 {
                    assert(r[0].0 == k2);
                } else {
                    assert(rest[i - 1].0 == k2);
                    assert(pm_contains(pm_put(rest, k, v), k2));
                    let m = choose|m: int|
                        0 <= m < pm_put(rest, k, v).len() && pm_put(rest, k, v)[m].0 == k2;
                    assert(r[m + 1].0 == k2);
                }
            }
        }
        assert forall|k2: Seq<char>| k2 != k && pm_contains(s, k2) implies #[trigger] pm_value(
            r,
            k2,
        ) == pm_value(s, k2) by {
            if s[0].0 == k2 {
            } else {
                assert(pm_value(r, k2) == pm_value(pm_put(rest, k, v), k2));
                assert(pm_value(s, k2) == pm_value(rest, k2));
                assert(pm_contains(rest, k2)) by {
                    let i = choose|i: int| 0 <= i < s.len() && s[i].0 == k2;
                    assert(i != 0);
                    assert(rest[i - 1].0 == k2);
                }
            }
        }
        assert(pm_distinct(r)) by {
            assert(pm_distinct(rest));
            assert(pm_distinct(pm_put(rest, k, v)));
            assert forall|i: int, j: int| 0 <= i < j < r.len() implies r[i].0 != r[j].0 by {
                if i == 0 {
                    let e = pm_put(rest, k, v)[j - 1];
                    if e.0 == k {
                        assert(s[0].0 != k);
                    } else {
                        assert(pm_contains(pm_put(rest, k, v), e.0));
                        assert(pm_contains(rest, e.0));
                        let m = choose|m: int| 0 <= m < rest.len() && rest[m].0 == e.0;
                        assert(s[0].0 != s[m + 1].0);
                    }
                }
            }
        }
    }
}

/// A removal leaves the keys distinct, drops exactly the pairs under `k`,
/// and keeps every other key with its value.
pub proof fn lemma_pm_remove(s: Seq<PairModel>, k: Seq<char>)
    ensures
        pm_remove(s, k).len() <= s.len(),
        !pm_contains(pm_remove(s, k), k),
        pm_distinct(s) ==> pm_distinct(pm_remove(s, k)),
        !pm_contains(s, k) ==> pm_remove(s, k) == s,
        forall|k2: Seq<char>|
            k2 != k ==> (#[trigger] pm_contains(pm_remove(s, k), k2) <==> pm_contains(s, k2)),
        forall|k2: Seq<char>|
            k2 != k && pm_contains(s, k2) ==> #[trigger] pm_value(pm_remove(s, k), k2) == pm_value(
                s,
                k2,
            ),
    decreases s.len(),
{
    let r = pm_remove(s, k);
    if s.len() == 0 {
        assert(r =~= s);
    } else {
        let rest = s.drop_first();
        lemma_pm_remove(rest, k);
        assert(forall|i: int| 0 <= i < rest.len() ==> rest[i] == s[i + 1]);
        if s[0].0 == k {
            assert forall|k2: Seq<char>| k2 != k implies (#[trigger] pm_contains(r, k2)
                <==> pm_contains(s, k2)) by {
                if pm_contains(s, k2) {
                    let i = choose|i: int| 0 <= i < s.len() && s[i].0 == k2;
                    assert(i != 0);
                    assert(rest[i - 1].0 == k2);
                }
                if pm_contains(rest, k2) {
                    let i = choose|i: int| 0 <= i < rest.len() && rest[i].0 == k2;
                    assert(s[i + 1].0 == k2);
                }
            }
            assert forall|k2: Seq<char>| k2 != k && pm_contains(s, k2) implies #[trigger] pm_value(
                r,
                k2,
            ) == pm_value(s, k2) by {
                assert(pm_value(s, k2) == pm_value(rest, k2));
                assert(pm_contains(rest, k2)) by {
                    let i = choose|i: int| 0 <= i < s.len() && s[i].0 == k2;
                    assert(i != 0);
                    assert(rest[i - 1].0 == k2);
                }
            }
        } else {
            assert(r == seq![s[0]] + pm_remove(rest, k));
            assert(r[0] == s[0]);
            assert(forall|i: int| 1 <= i < r.len() ==> r[i] == pm_remove(rest, k)[i - 1]);
            assert(r.drop_first() =~= pm_remove(rest, k));
            if !pm_contains(s, k) {
                assert(!pm_contains(rest, k)) by {
                    if pm_contains(rest, k) {
                        let i = choose|i: int| 0 <= i < rest.len() && rest[i].0 == k;
                        assert(s[i + 1].0 == k);
                    }
                }
                assert(r =~= s);
            }
            assert(!pm_contains(r, k)) by {
                if pm_contains(r, k) {
                    let i = choose|i: int| 0 <= i < r.len() && r[i].0 == k;
                    assert(i != 0);
                }
            }
            assert forall|k2: Seq<char>| k2 != k implies (#[trigger] pm_contains(r, k2)
                <==> pm_contains(s, k2)) by {
                if pm_contains(r, k2) {
                    let i = choose|i: int| 0 <= i < r.len() && r[i].0 == k2;
                    if i == 0 {
                    } else {
                        assert(pm_contains(pm_remove(rest, k), k2));
                        assert(pm_contains(rest, k2));
                        let m = choose|m: int| 0 <= m < rest.len() && rest[m].0 == k2;
                        assert(s[m + 1].0 == k2);
                    }
                }
                if pm_contains(s, k2) {
                    let i = choose|i: int| 0 <= i < s.len() && s[i].0 == k2;
                    if i == 0 {
                        assert(r[0].0 == k2);
                    } else {
                        assert(rest[i - 1].0 == k2);
                        assert(pm_contains(pm_remove(rest, k), k2));
                        let m = choose|m: int|
                            0 <= m < pm_remove(rest, k).len() && pm_remove(rest, k)[m].0 == k2;
                        assert(r[m + 1].0 == k2);
                    }
                }
            }
            assert forall|k2: Seq<char>| k2 != k && pm_contains(s, k2) implies #[trigger] pm_value(
                r,
                k2,
            ) == pm_value(s, k2) by {
                if s[0].0 == k2 {
                } else {
                    assert(pm_value(r, k2) == pm_value(pm_remove(rest, k), k2));
                    assert(pm_value(s, k2) == pm_value(rest, k2));
                    assert(pm_contains(rest, k2)) by {
                        let i = choose|i: int| 0 <= i < s.len() && s[i].0 == k2;
                        assert(i != 0);
                        assert(rest[i - 1].0 == k2);
                    }
                }
            }
            if pm_distinct(s) {
                assert(pm_distinct(rest));
                assert forall|i: int, j: int| 0 <= i < j < r.len() implies r[i].0 != r[j].0 by {
                    if i == 0 {
                        let e = pm_remove(rest, k)[j - 1];
                        assert(pm_contains(pm_remove(rest, k), e.0));
                        assert(pm_contains(rest, e.0));
                        let m = choose|m: int| 0 <= m < rest.len() && rest[m].0 == e.0;
                        assert(s[0].0 != s[m + 1].0);
                    }
                }
            }
        }
    }
}

/// An ordered map from parameter names to values, each name held once.
#[derive(Debug)]
pub struct ParamMap {
    entries: Vec<(String, String)>,
}

impl ParamMap {
    /// The pairs, in order.
    pub closed spec fn view(self) -> Seq<PairModel> {
        pairs_view(self.entries@)
    }

    /// Each name held at most once.
    pub open spec fn wf(self) -> bool {
        pm_distinct(self.view())
    }

    pub fn new() -> (m: Self)
        ensures
            m.wf(),
            m.view() == Seq::<PairModel>::empty(),
    {
        let m = ParamMap { entries: Vec::new() };
        proof {
            assert(m.view() =~= Seq::<PairModel>::empty());
        }
        m
    }

    pub fn len(&self) -> (n: usize)
        ensures
            n as nat == self.view().len(),
    {
        self.entries.len()
    }

    /// The pairs as owned strings, in order.
    pub fn pairs(&self) -> (r: &Vec<(String, String)>)
        ensures
            pairs_view(r@) == self.view(),
    {
        &self.entries
    }

    /// The value under `key`, if present.
    pub fn get(&self, key: &str) -> (r: Option<&String>)
        requires
            self.wf(),
        ensures
            match r {
                Some(v) => pm_contains(self.view(), key@) && v@ == pm_value(self.view(), key@),
                None => !pm_contains(self.view(), key@),
            },
    {
        let n = self.entries.len();
        let mut i: usize = 0;
        while i < n
            invariant
                i <= n,
                n == self.entries.len(),
                self.wf(),
                forall|j: int| 0 <= j < i ==> self.view()[j].0 != key@,
            decreases n - i,
        {
            if str_eq(self.entries[i].0.as_str(), key) {
                proof {
                    assert(self.view()[i as int].0 == key@);
                    lemma_pm_value_at(self.view(), i as int);
                }
                return Some(&self.entries[i].1);
            }
            i = i + 1;
        }
        proof {
            if pm_contains(self.view(), key@) {
                let j = choose|j: int| 0 <= j < self.view().len() && self.view()[j].0 == key@;
                assert(self.view()[j].0 != key@);
            }
        }
        None
    }

    /// Stores `value` under `key`: a present name keeps its place, an absent
    /// one is appended.
    #[verifier::loop_isolation(false)]
    pub fn insert(&mut self, key: String, value: String)
        requires
            old(self).wf(),
        ensures
            final(self).wf(),
            final(self).view() == pm_put(old(self).view(), key@, value@),
    {
        proof {
            lemma_pm_put(self.view(), key@, value@);
        }
        let ghost v0 = self.view();
        let n = self.entries.len();
        let mut i: usize = 0;
        while i < n
            invariant
                i <= n,
                n == self.entries.len(),
                self.wf(),
                self.view() == v0,
                forall|j: int| 0 <= j < i ==> self.view()[j].0 != key@,
            decreases n - i,
        {
            if str_eq(self.entries[i].0.as_str(), key.as_str()) {
                proof {
                    assert(self.view()[i as int].0 == key@);
                    lemma_pm_put_at(self.view(), key@, value@, i as int);
                }
                self.entries.set(i, (key, value));
                proof {
                    assert(self.view() =~= v0.update(i as int, (key@, value@)));
                }
                return ;
            }
            i = i + 1;
        }
        proof {
            if pm_contains(v0, key@) {
                let j = choose|j: int| 0 <= j < v0.len() && v0[j].0 == key@;
                assert(v0[j].0 != key@);
            }
        }
        self.entries.push((key, value));
        proof {
            assert(self.view() =~= v0.push((key@, value@)));
        }
    }

    /// Removes and returns the pair under `key`.
    #[verifier::loop_isolation(false)]
    pub fn remove(&mut self, key: &str) -> (r: Option<(String, String)>)
        requires
            old(self).wf(),
        ensures
            final(self).wf(),
            final(self).view() == pm_remove(old(self).view(), key@),
            match r {
                Some(pair) => pm_contains(old(self).view(), key@) && pair.0@ == key@ && pair.1@
                    == pm_value(old(self).view(), key@),
                None => !pm_contains(old(self).view(), key@),
            },
    {
        proof {
            lemma_pm_remove(self.view(), key@);
        }
        let ghost v0 = self.view();
        let n = self.entries.len();
        let mut i: usize = 0;
        while i < n
            invariant
                i <= n,
                n == self.entries.len(),
                self.wf(),
                self.view() == v0,
                forall|j: int| 0 <= j < i ==> self.view()[j].0 != key@,
            decreases n - i,
        {
            if str_eq(self.entries[i].0.as_str(), key) {
                proof {
                    assert(self.view()[i as int].0 == key@);
                    lemma_pm_value_at(v0, i as int);
                    lemma_pm_remove_at(v0, i as int);
                }
                let pair = self.entries.remove(i);
                proof {
                    assert(self.view() =~= v0.remove(i as int));
                }
                return Some(pair);
            }
            i = i + 1;
        }
        proof {
            if pm_contains(v0, key@) {
                let j = choose|j: int| 0 <= j < v0.len() && v0[j].0 == key@;
                assert(v0[j].0 != key@);
            }
        }
        None
    }
}

/// In a map with distinct keys, the value under the key at position `i` is
/// the value at position `i`.
proof fn lemma_pm_value_at(s: Seq<PairModel>, i: int)
    requires
        pm_distinct(s),
        0 <= i < s.len(),
        forall|j: int| 0 <= j < i ==> s[j].0 != s[i].0,
    ensures
        pm_value(s, s[i].0) == s[i].1,
    decreases s.len(),
{
    if i == 0 {
    } else {
        let rest = s.drop_first();
        assert(forall|j: int| 0 <= j < rest.len() ==> rest[j] == s[j + 1]);
        assert(s[0].0 != s[i].0);
        lemma_pm_value_at(rest, i - 1);
    }
}

/// Replacing the value at the position holding `k` is what `pm_put` does.
proof fn lemma_pm_put_at(s: Seq<PairModel>, k: Seq<char>, v: Seq<char>, i: int)
    requires
        pm_distinct(s),
        0 <= i < s.len(),
        s[i].0 == k,
    ensures
        pm_put(s, k, v) == s.update(i, (k, v)),
    decreases s.len(),
{
    if i == 0 {
        assert(pm_put(s, k, v) =~= s.update(0, (k, v)));
    } else {
        let rest = s.drop_first();
        assert(forall|j: int| 0 <= j < rest.len() ==> rest[j] == s[j + 1]);
        assert(s[0].0 != k);
        lemma_pm_put_at(rest, k, v, i - 1);
        assert(pm_put(s, k, v) =~= s.update(i, (k, v)));
    }
}

/// Dropping the position holding `k` is what `pm_remove` does when keys are
/// distinct.
proof fn lemma_pm_remove_at(s: Seq<PairModel>, i: int)
    requires
        pm_distinct(s),
        0 <= i < s.len(),
    ensures
        pm_remove(s, s[i].0) == s.remove(i),
    decreases s.len(),
{
    let k = s[i].0;
    if i == 0 {
        let rest = s.drop_first();
        assert(!pm_contains(rest, k)) by {
            if pm_contains(rest, k) {
                let j = choose|j: int| 0 <= j < rest.len() && rest[j].0 == k;
                assert(s[j + 1].0 == k);
            }
        }
        lemma_pm_remove(rest, k);
        assert(pm_remove(s, k) == rest);
        assert(rest =~= s.remove(0));
    } else {
        let rest = s.drop_first();
        assert(forall|j: int| 0 <= j < rest.len() ==> rest[j] == s[j + 1]);
        assert(s[0].0 != k);
        lemma_pm_remove_at(rest, i - 1);
        assert(pm_remove(s, k) =~= s.remove(i));
    }
}

} // verus!
