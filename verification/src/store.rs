//! A keyed store: at most one value under each key.

use vstd::prelude::*;
use crate::address::Address;

verus! {

/// A type whose values can serve as keys: they can be compared for equality.
pub trait Key: Sized {
    /// Whether the two keys are equal.
    fn same(&self, other: &Self) -> (b: bool)
        ensures
            b == (*self == *other),
    ;
}

impl Key for u32 {
    fn same(&self, other: &Self) -> (b: bool) {
        *self == *other
    }
}

impl Key for Address {
    fn same(&self, other: &Self) -> (b: bool) {
        *self == *other
    }
}

impl Key for (u32, Address) {
    fn same(&self, other: &Self) -> (b: bool) {
        self.0 == other.0 && self.1 == other.1
    }
}

/// Whether `at` is the first position of `entries` that holds the key `k`.
pub open spec fn is_first<K, V>(entries: Seq<(K, V)>, k: K, at: int) -> bool {
    &&& 0 <= at < entries.len()
    &&& entries[at].0 == k
    &&& forall|j: int| 0 <= j < at ==> (#[trigger] entries[j]).0 != k
}

/// Whether some entry of `entries` has the key `k`.
pub open spec fn has_key<K, V>(entries: Seq<(K, V)>, k: K) -> bool {
    exists|at: int| is_first(entries, k, at)
}

/// The first position of `entries` that holds the key `k`, if there is one.
pub open spec fn first_position<K, V>(entries: Seq<(K, V)>, k: K) -> int {
    choose|at: int| is_first(entries, k, at)
}

/// The map that a list of entries stands for: each key that occurs, with the
/// value of its first entry.
pub open spec fn entries_map<K, V>(entries: Seq<(K, V)>) -> Map<K, V> {
    Map::new(|k: K| has_key(entries, k), |k: K| entries[first_position(entries, k)].1)
}

/// A store of values under keys. Its view is the map from each key to the value
/// that was last set under it.
pub struct Store<K, V> {
    entries: Vec<(K, V)>,
}

impl<K, V> View for Store<K, V> {
    type V = Map<K, V>;

    closed spec fn view(&self) -> Map<K, V> {
        entries_map(self.entries@)
    }
}

impl<K: Key, V> Store<K, V> {
    /// The empty store.
    pub fn new() -> (store: Self)
        ensures
            store@ == Map::<K, V>::empty(),
    {
        let store = Store { entries: Vec::new() };
        proof {
            assert(store@ =~= Map::<K, V>::empty());
        }
        store
    }

    /// The index of the first entry under `key`, if the store has one.
    fn find(&self, key: &K) -> (at: Option<usize>)
        ensures
            match at {
                Some(i) => is_first(self.entries@, *key, i as int),
                None => forall|j: int|
                    0 <= j < self.entries@.len() ==> (#[trigger] self.entries@[j]).0 != *key,
            },
    {
        let mut i: usize = 0;
        while i < self.entries.len()
            invariant
                i <= self.entries@.len(),
                forall|j: int| 0 <= j < i ==> (#[trigger] self.entries@[j]).0 != *key,
            decreases self.entries@.len() - i,
        {
            if self.entries[i].0.same(key) {
                return Some(i);
            }
            i += 1;
        }
        None
    }

    /// The entries that the store holds, in the order in which their keys were
    /// first set. The value under a key is that of the first entry with it.
    pub fn entries(&self) -> (list: &Vec<(K, V)>)
        ensures
            entries_map(list@) == self@,
    {
        &self.entries
    }

    /// Whether a value is stored under `key`.
    pub fn contains_key(&self, key: &K) -> (found: bool)
        ensures
            found == self@.contains_key(*key),
    {
        self.find(key).is_some()
    }

    /// The value stored under `key`, if there is one.
    pub fn get(&self, key: &K) -> (value: Option<&V>)
        ensures
            match value {
                Some(v) => self@.contains_key(*key) && *v == self@[*key],
                None => !self@.contains_key(*key),
            },
    {
        match self.find(key) {
            Some(i) => {
                proof {
                    lemma_first_is_unique(self.entries@, *key, i as int);
                }
                Some(&self.entries[i].1)
            },
            None => None,
        }
    }

    /// Stores `value` under `key`, in place of what was stored there before.
    pub fn set(&mut self, key: K, value: V)
        ensures
            final(self)@ == old(self)@.insert(key, value),
    {
        let ghost before = self.entries@;
        match self.find(&key) {
            Some(i) => {
                self.entries.set(i, (key, value));
                proof {
                    lemma_replace_is_insert(before, i as int, key, value);
                }
            },
            None => {
                self.entries.push((key, value));
                proof {
                    lemma_push_is_insert(before, key, value);
                }
            },
        }
    }
}

/// A key has one first position: the one that `first_position` names.
proof fn lemma_first_is_unique<K, V>(entries: Seq<(K, V)>, k: K, at: int)
    requires
        is_first(entries, k, at),
    ensures
        has_key(entries, k),
        first_position(entries, k) == at,
{
    let p = first_position(entries, k);
    assert(is_first(entries, k, p));
    if p < at {
        assert(entries[p].0 != k);
    }
    if at < p {
        assert(entries[at].0 != k);
    }
}

/// Replacing the first entry under a key gives the map with that key set anew.
proof fn lemma_replace_is_insert<K, V>(entries: Seq<(K, V)>, at: int, key: K, value: V)
    requires
        is_first(entries, key, at),
    ensures
        entries_map(entries.update(at, (key, value))) == entries_map(entries).insert(key, value),
{
    let after = entries.update(at, (key, value));
    assert forall|k: K, p: int| is_first(after, k, p) == is_first(entries, k, p) by {
        if is_first(after, k, p) {
            assert(entries[p].0 == k);
            assert forall|j: int| 0 <= j < p implies (#[trigger] entries[j]).0 != k by {
                assert(after[j].0 != k);
            }
        }
        if is_first(entries, k, p) {
            assert(after[p].0 == k);
            assert forall|j: int| 0 <= j < p implies (#[trigger] after[j]).0 != k by {
                assert(entries[j].0 != k);
            }
        }
    }
    assert(is_first(after, key, at));
    lemma_first_is_unique(after, key, at);
    assert forall|k: K| has_key(after, k) == (k == key || has_key(entries, k)) by {
        if has_key(entries, k) {
            assert(is_first(after, k, first_position(entries, k)));
        }
        if has_key(after, k) {
            assert(is_first(entries, k, first_position(after, k)));
        }
    }
    assert forall|k: K| has_key(after, k) && k != key implies entries_map(after)[k]
        == entries_map(entries)[k] by {
        let p = first_position(after, k);
        assert(is_first(entries, k, p));
        lemma_first_is_unique(entries, k, p);
    }
    assert(entries_map(after) =~= entries_map(entries).insert(key, value));
}

/// Appending an entry under a key that does not occur gives the map with that
/// key set.
proof fn lemma_push_is_insert<K, V>(entries: Seq<(K, V)>, key: K, value: V)
    requires
        forall|j: int| 0 <= j < entries.len() ==> (#[trigger] entries[j]).0 != key,
    ensures
        entries_map(entries.push((key, value))) == entries_map(entries).insert(key, value),
{
    let after = entries.push((key, value));
    let last = entries.len() as int;
    assert(is_first(after, key, last)) by {
        assert forall|j: int| 0 <= j < last implies (#[trigger] after[j]).0 != key by {
            assert(entries[j].0 != key);
        }
    }
    lemma_first_is_unique(after, key, last);
    assert forall|k: K, p: int| k != key implies is_first(after, k, p) == is_first(
        entries,
        k,
        p,
    ) by {
        if is_first(after, k, p) {
            assert(p != last);
            assert(entries[p].0 == k);
            assert forall|j: int| 0 <= j < p implies (#[trigger] entries[j]).0 != k by {
                assert(after[j].0 != k);
            }
        }
        if is_first(entries, k, p) {
            assert(after[p].0 == k);
            assert forall|j: int| 0 <= j < p implies (#[trigger] after[j]).0 != k by {
                assert(entries[j].0 != k);
            }
        }
    }
    assert forall|k: K| has_key(after, k) == (k == key || has_key(entries, k)) by {
        if k != key {
            if has_key(entries, k) {
                assert(is_first(after, k, first_position(entries, k)));
            }
            if has_key(after, k) {
                assert(is_first(entries, k, first_position(after, k)));
            }
        }
    }
    assert forall|k: K| has_key(after, k) && k != key implies entries_map(after)[k]
        == entries_map(entries)[k] by {
        let p = first_position(after, k);
        assert(is_first(entries, k, p));
        lemma_first_is_unique(entries, k, p);
    }
    assert(entries_map(after) =~= entries_map(entries).insert(key, value));
}

} // verus!
