//! Maps keyed by IDs, such as the database keeps for the items of an enum,
//! the fields of a struct, the symbols of a module and so on.

use vstd::prelude::*;

use crate::interner::{IdentifierId, PathId};

verus! {

/// Whether no identifier occurs twice among the keys of `entries`.
pub open spec fn distinct_keys<K, V>(entries: Seq<(K, V)>) -> bool {
    forall|i: int, j: int|
        #![trigger entries[i], entries[j]]
        0 <= i < j < entries.len() ==> entries[i].0 != entries[j].0
}

/// Whether `key` is the key of some entry.
pub open spec fn has_key<K, V>(entries: Seq<(K, V)>, key: K) -> bool {
    exists|i: int| 0 <= i < entries.len() && #[trigger] entries[i].0 == key
}

/// The map that a list of entries with distinct keys stands for.
pub open spec fn map_of<K, V>(entries: Seq<(K, V)>) -> Map<K, V> {
    Map::new(
        |key: K| has_key(entries, key),
        |key: K|
            entries[choose|i: int| 0 <= i < entries.len() && #[trigger] entries[i].0 == key].1,
    )
}

/// Each entry of a list with distinct keys is what the map holds at its key.
pub proof fn lemma_map_of_entry<K, V>(entries: Seq<(K, V)>, i: int)
    requires
        distinct_keys(entries),
        0 <= i < entries.len(),
    ensures
        map_of(entries).contains_key(entries[i].0),
        map_of(entries)[entries[i].0] == entries[i].1,
{
    let key = entries[i].0;
    assert(has_key(entries, key));
    let j = choose|j: int| 0 <= j < entries.len() && #[trigger] entries[j].0 == key;
    if j < i {
        assert(entries[j].0 != entries[i].0);
    } else if i < j {
        assert(entries[i].0 != entries[j].0);
    }
}

/// A type of IDs that can key a [`KeyMap`]: two IDs can be compared.
pub trait MapKey: Copy {
    /// Whether the two IDs are the same.
    fn same_key(&self, other: &Self) -> (r: bool)
        ensures
            r == (*self == *other),
    ;
}

impl MapKey for IdentifierId {
    fn same_key(&self, other: &Self) -> (r: bool) {
        self.0 == other.0
    }
}

impl MapKey for PathId {
    fn same_key(&self, other: &Self) -> (r: bool) {
        self.0 == other.0
    }
}

/// A map from IDs to values. Its entries are kept in the order in which
/// their keys were first inserted, and no key occurs twice.
#[derive(Debug)]
pub struct KeyMap<K: MapKey, V> {
    entries: Vec<(K, V)>,
}

/// A map keyed by interned identifiers.
pub type IdentifierMap<V> = KeyMap<IdentifierId, V>;

impl<K: MapKey, V> KeyMap<K, V> {
    #[verifier::type_invariant]
    spec fn keys_are_distinct(&self) -> bool {
        distinct_keys(self.entries@)
    }

    /// The entries of the map, in the order in which their keys were first
    /// inserted.
    pub closed spec fn entries(&self) -> Seq<(K, V)> {
        self.entries@
    }

    /// The map from identifiers to values.
    pub closed spec fn view(&self) -> Map<K, V> {
        map_of(self.entries@)
    }

    /// Creates an empty map.
    pub fn new() -> (r: Self)
        ensures
            r@ == Map::<K, V>::empty(),
            r.entries().len() == 0,
    {
        let r = KeyMap { entries: Vec::new() };
        assert(r@ =~= Map::<K, V>::empty());
        r
    }

    /// Returns the number of entries.
    pub fn len(&self) -> (r: usize)
        ensures
            r == self.entries().len(),
            r == self@.dom().len(),
    {
        proof {
            use_type_invariant(self);
            self.lemma_len();
        }
        self.entries.len()
    }

    proof fn lemma_len(&self)
        requires
            distinct_keys(self.entries@),
        ensures
            self@.dom().finite(),
            self@.dom().len() == self.entries@.len(),
        decreases self.entries@.len(),
    {
        let s = self.entries@;
        let keys = s.map_values(|e: (K, V)| e.0);
        assert(self@.dom() =~= keys.to_set()) by {
            assert forall|k: K| self@.dom().contains(k) implies keys.to_set().contains(k) by {
                let i = choose|i: int| 0 <= i < s.len() && #[trigger] s[i].0 == k;
                assert(keys[i] == k);
            }
            assert forall|k: K| keys.to_set().contains(k) implies self@.dom().contains(k) by {
                let i = choose|i: int| 0 <= i < keys.len() && keys[i] == k;
                assert(s[i].0 == k);
            }
        }
        assert(keys.no_duplicates()) by {
            assert forall|i: int, j: int| 0 <= i < keys.len() && 0 <= j < keys.len() && i != j
                implies keys[i] != keys[j] by {
                if i < j {
                    assert(s[i].0 != s[j].0);
                } else {
                    assert(s[j].0 != s[i].0);
                }
            }
        }
        keys.unique_seq_to_set();
    }

    /// Whether the map holds a value for `key`.
    pub fn contains_key(&self, key: K) -> (r: bool)
        ensures
            r == self@.contains_key(key),
    {
        proof {
            use_type_invariant(self);
        }
        let mut i: usize = 0;
        while i < self.entries.len()
            invariant
                i <= self.entries@.len(),
                forall|j: int| 0 <= j < i ==> self.entries@[j].0 != key,
            decreases self.entries@.len() - i,
        {
            if self.entries[i].0.same_key(&key) {
                assert(has_key(self.entries@, key));
                return true;
            }
            i += 1;
        }
        false
    }

    /// Inserts `value` under `key`, and returns the value that was there.
    /// A new key goes after all the others; an existing one keeps its place.
    pub fn insert(&mut self, key: K, value: V) -> (r: Option<V>)
        ensures
            final(self)@ == old(self)@.insert(key, value),
            r == (if old(self)@.contains_key(key) {
                Some(old(self)@[key])
            } else {
                None
            }),
            old(self)@.contains_key(key) ==> final(self).entries().len() == old(self).entries().len(),
            !old(self)@.contains_key(key) ==> final(self).entries() == old(self).entries().push(
                (key, value),
            ),
    {
        proof {
            use_type_invariant(&*self);
        }
        let ghost s = self.entries@;
        let mut entries = Vec::new();
        std::mem::swap(&mut entries, &mut self.entries);
        let mut i: usize = 0;
        while i < entries.len()
            invariant
                s == entries@,
                s == old(self).entries@,
                distinct_keys(s),
                i <= s.len(),
                forall|j: int| 0 <= j < i ==> s[j].0 != key,
            decreases s.len() - i,
        {
            if entries[i].0.same_key(&key) {
                let ghost t = s.update(i as int, (key, value));
                proof {
                    lemma_map_of_entry(s, i as int);
                    assert(distinct_keys(t)) by {
                        assert forall|a: int, b: int| 0 <= a < b < t.len() implies #[trigger] t[a].0
                            != #[trigger] t[b].0 by {
                            assert(s[a].0 != s[b].0);
                        }
                    }
                    Self::lemma_update(s, i as int, value);
                }
                let mut previous = (key, value);
                std::mem::swap(&mut entries[i], &mut previous);
                assert(entries@ == t);
                self.entries = entries;
                return Some(previous.1);
            }
            i += 1;
        }
        let ghost t = s.push((key, value));
        proof {
            assert(!has_key(s, key));
            assert(distinct_keys(t)) by {
                assert forall|a: int, b: int| 0 <= a < b < t.len() implies #[trigger] t[a].0
                    != #[trigger] t[b].0 by {
                    if b == s.len() {
                        assert(s[a].0 != key);
                    } else {
                        assert(s[a].0 != s[b].0);
                    }
                }
            }
            Self::lemma_push(s, key, value);
        }
        entries.push((key, value));
        assert(entries@ == t);
        self.entries = entries;
        None
    }

    proof fn lemma_update(s: Seq<(K, V)>, i: int, value: V)
        requires
            distinct_keys(s),
            distinct_keys(s.update(i, (s[i].0, value))),
            0 <= i < s.len(),
        ensures
            map_of(s.update(i, (s[i].0, value))) == map_of(s).insert(s[i].0, value),
    {
        let key = s[i].0;
        let t = s.update(i, (key, value));
        lemma_map_of_entry(t, i);
        assert forall|k: K| #[trigger] map_of(t).contains_key(k) == map_of(s).insert(
            key,
            value,
        ).contains_key(k) by {
            if has_key(s, k) {
                let j = choose|j: int| 0 <= j < s.len() && #[trigger] s[j].0 == k;
                assert(t[j].0 == k);
            }
            if has_key(t, k) {
                let j = choose|j: int| 0 <= j < t.len() && #[trigger] t[j].0 == k;
                assert(s[j].0 == k);
            }
        }
        assert forall|k: K| #[trigger] map_of(t).contains_key(k) && k != key implies map_of(
            t,
        )[k] == map_of(s)[k] by {
            let j = choose|j: int| 0 <= j < t.len() && #[trigger] t[j].0 == k;
            assert(j != i);
            lemma_map_of_entry(t, j);
            lemma_map_of_entry(s, j);
        }
        assert(map_of(t) =~= map_of(s).insert(key, value));
    }

    proof fn lemma_push(s: Seq<(K, V)>, key: K, value: V)
        requires
            distinct_keys(s),
            distinct_keys(s.push((key, value))),
            !has_key(s, key),
        ensures
            map_of(s.push((key, value))) == map_of(s).insert(key, value),
    {
        let t = s.push((key, value));
        lemma_map_of_entry(t, s.len() as int);
        assert forall|k: K| #[trigger] map_of(t).contains_key(k) == map_of(s).insert(
            key,
            value,
        ).contains_key(k) by {
            if has_key(s, k) {
                let j = choose|j: int| 0 <= j < s.len() && #[trigger] s[j].0 == k;
                assert(t[j].0 == k);
            }
            if has_key(t, k) && k != key {
                let j = choose|j: int| 0 <= j < t.len() && #[trigger] t[j].0 == k;
                assert(s[j].0 == k);
            }
        }
        assert forall|k: K| #[trigger] map_of(t).contains_key(k) && k != key implies map_of(
            t,
        )[k] == map_of(s)[k] by {
            let j = choose|j: int| 0 <= j < t.len() && #[trigger] t[j].0 == k;
            assert(j < s.len());
            lemma_map_of_entry(t, j);
            lemma_map_of_entry(s, j);
        }
        assert(map_of(t) =~= map_of(s).insert(key, value));
    }
}

impl<K: MapKey, V> KeyMap<K, V> {
    /// Returns a reference to the value held for `key`, if there is one.
    pub fn get_ref(&self, key: K) -> (r: Option<&V>)
        ensures
            r == (if self@.contains_key(key) {
                Some(&self@[key])
            } else {
                None
            }),
    {
        proof {
            use_type_invariant(self);
        }
        let mut i: usize = 0;
        while i < self.entries.len()
            invariant
                i <= self.entries@.len(),
                distinct_keys(self.entries@),
                forall|j: int| 0 <= j < i ==> self.entries@[j].0 != key,
            decreases self.entries@.len() - i,
        {
            if self.entries[i].0.same_key(&key) {
                proof {
                    lemma_map_of_entry(self.entries@, i as int);
                }
                return Some(&self.entries[i].1);
            }
            i += 1;
        }
        None
    }
}

impl<K: MapKey, V: Copy> KeyMap<K, V> {
    /// Returns the value held for `key`, if there is one.
    pub fn get(&self, key: K) -> (r: Option<V>)
        ensures
            r == (if self@.contains_key(key) {
                Some(self@[key])
            } else {
                None
            }),
    {
        proof {
            use_type_invariant(self);
        }
        let mut i: usize = 0;
        while i < self.entries.len()
            invariant
                i <= self.entries@.len(),
                distinct_keys(self.entries@),
                forall|j: int| 0 <= j < i ==> self.entries@[j].0 != key,
            decreases self.entries@.len() - i,
        {
            if self.entries[i].0.same_key(&key) {
                proof {
                    lemma_map_of_entry(self.entries@, i as int);
                }
                return Some(self.entries[i].1);
            }
            i += 1;
        }
        None
    }

    /// Returns the values of the map, in the order of its entries.
    pub fn values(&self) -> (r: Vec<V>)
        ensures
            r@.len() == self.entries().len(),
            forall|i: int| 0 <= i < r@.len() ==> r@[i] == #[trigger] self.entries()[i].1,
            forall|v: V| r@.contains(v) <==> self@.values().contains(v),
    {
        proof {
            use_type_invariant(self);
        }
        let mut r: Vec<V> = Vec::new();
        let mut i: usize = 0;
        while i < self.entries.len()
            invariant
                i <= self.entries@.len(),
                r@.len() == i,
                forall|j: int| 0 <= j < i ==> r@[j] == #[trigger] self.entries@[j].1,
            decreases self.entries@.len() - i,
        {
            r.push(self.entries[i].1);
            i += 1;
        }
        proof {
            let s = self.entries@;
            assert forall|v: V| r@.contains(v) implies self@.values().contains(v) by {
                let j = choose|j: int| 0 <= j < r@.len() && r@[j] == v;
                lemma_map_of_entry(s, j);
                assert(self@.contains_key(s[j].0) && self@[s[j].0] == v);
            }
            assert forall|v: V| self@.values().contains(v) implies r@.contains(v) by {
                let k = choose|k: K| self@.contains_key(k) && self@[k] == v;
                let j = choose|j: int| 0 <= j < s.len() && #[trigger] s[j].0 == k;
                lemma_map_of_entry(s, j);
                assert(r@[j] == v);
            }
        }
        r
    }
}

} // verus!
