//! Keyed record stores: the verified replacement for the host ledger's
//! persistent key-to-record maps.
//!
//! A store is an association list whose abstract value is a `Map`. The list
//! holds each key at most once; constructors establish that well-formedness
//! and every operation preserves it, so callers reason over the map alone.

use vstd::prelude::*;

verus! {

/// The map an association list denotes; a later entry for a key would win,
/// though the stores below never hold a key twice.
pub open spec fn assoc_map<K, V>(s: Seq<(K, V)>) -> Map<K, V>
    decreases s.len(),
{
    if s.len() == 0 {
        Map::empty()
    } else {
        assoc_map(s.drop_last()).insert(s.last().0, s.last().1)
    }
}

/// No key occurs twice in the list.
pub open spec fn unique_keys<K, V>(s: Seq<(K, V)>) -> bool {
    forall|i: int, j: int|
        0 <= i < j < s.len() ==> (#[trigger] s[i]).0 != (#[trigger] s[j]).0
}

/// A key is in the map exactly when some entry holds it.
pub proof fn lemma_assoc_contains<K, V>(s: Seq<(K, V)>, k: K)
    ensures
        assoc_map(s).contains_key(k) <==> exists|i: int|
            0 <= i < s.len() && (#[trigger] s[i]).0 == k,
    decreases s.len(),
{
    if s.len() > 0 {
        lemma_assoc_contains(s.drop_last(), k);
        if s.last().0 == k {
            assert((s[s.len() - 1]).0 == k);
        } else if exists|i: int| 0 <= i < s.len() && (#[trigger] s[i]).0 == k {
            let i = choose|i: int| 0 <= i < s.len() && (#[trigger] s[i]).0 == k;
            assert(s.drop_last()[i] == s[i]);
        }
    }
}

/// With unique keys, the entry holding a key decides its value in the map.
pub proof fn lemma_assoc_get<K, V>(s: Seq<(K, V)>, i: int)
    requires
        unique_keys(s),
        0 <= i < s.len(),
    ensures
        assoc_map(s).contains_key(s[i].0),
        assoc_map(s)[s[i].0] == s[i].1,
    decreases s.len(),
{
    if i < s.len() - 1 {
        assert(s.drop_last()[i] == s[i]);
        lemma_assoc_get(s.drop_last(), i);
    }
}

/// Removing the entry that holds a key removes the key from the map.
pub proof fn lemma_assoc_remove<K, V>(s: Seq<(K, V)>, i: int)
    requires
        unique_keys(s),
        0 <= i < s.len(),
    ensures
        assoc_map(s.remove(i)) == assoc_map(s).remove(s[i].0),
    decreases s.len(),
{
    let k = s[i].0;
    if i == s.len() - 1 {
        assert(s.remove(i) =~= s.drop_last());
        lemma_assoc_contains(s.drop_last(), k);
        assert(forall|j: int|
            0 <= j < s.drop_last().len() ==> (#[trigger] s.drop_last()[j]).0 != k);
        assert(!assoc_map(s.drop_last()).contains_key(k));
        assert(assoc_map(s.drop_last()).insert(k, s[i].1).remove(k)
            =~= assoc_map(s.drop_last()));
    } else {
        assert(s.remove(i).drop_last() =~= s.drop_last().remove(i));
        assert(s.remove(i).last() == s.last());
        lemma_assoc_remove(s.drop_last(), i);
        assert(assoc_map(s.drop_last()).remove(k).insert(s.last().0, s.last().1)
            =~= assoc_map(s.drop_last()).insert(s.last().0, s.last().1).remove(k));
    }
}

/// A record store keyed by a 64-bit identifier.
pub struct KeyedStore<V> {
    entries: Vec<(u64, V)>,
}

impl<V> View for KeyedStore<V> {
    type V = Map<u64, V>;

    closed spec fn view(&self) -> Map<u64, V> {
        assoc_map(self.entries@)
    }
}

impl<V> KeyedStore<V> {
    /// Each key is held at most once; constructors establish this and every
    /// operation preserves it.
    pub closed spec fn wf(&self) -> bool {
        unique_keys(self.entries@)
    }

    /// An empty store.
    pub fn new() -> (s: Self)
        ensures
            s.wf(),
            s@ == Map::<u64, V>::empty(),
    {
        KeyedStore { entries: Vec::new() }
    }

    /// The position of the entry holding `key`, if any.
    fn index_of(&self, key: u64) -> (r: Option<usize>)
        ensures
            match r {
                Some(i) => i < self.entries@.len() && self.entries@[i as int].0 == key,
                None => forall|j: int|
                    0 <= j < self.entries@.len() ==> (#[trigger] self.entries@[j]).0 != key,
            },
    {
        let mut i: usize = 0;
        while i < self.entries.len()
            invariant
                i <= self.entries@.len(),
                forall|j: int| 0 <= j < i ==> (#[trigger] self.entries@[j]).0 != key,
            decreases self.entries@.len() - i,
        {
            if self.entries[i].0 == key {
                return Some(i);
            }
            i = i + 1;
        }
        None
    }

    /// Whether the store holds a record under `key`.
    pub fn contains_key(&self, key: u64) -> (r: bool)
        ensures
            r == self@.contains_key(key),
    {
        let r = self.index_of(key);
        proof {
            lemma_assoc_contains(self.entries@, key);
        }
        r.is_some()
    }

    /// The record held under `key`, if any.
    pub fn get(&self, key: u64) -> (r: Option<&V>)
        requires
            self.wf(),
        ensures
            match r {
                Some(v) => self@.contains_key(key) && *v == self@[key],
                None => !self@.contains_key(key),
            },
    {
        proof {
            lemma_assoc_contains(self.entries@, key);
        }
        match self.index_of(key) {
            Some(i) => {
                proof {
                    lemma_assoc_get(self.entries@, i as int);
                }
                Some(&self.entries[i].1)
            },
            None => None,
        }
    }

    /// Stores `value` under `key`, replacing any record already there.
    pub fn insert(&mut self, key: u64, value: V)
        requires
            old(self).wf(),
        ensures
            final(self).wf(),
            final(self)@ == old(self)@.insert(key, value),
    {
        let ghost s0 = self.entries@;
        match self.index_of(key) {
            Some(i) => {
                proof {
                    lemma_assoc_remove(s0, i as int);
                }
                self.entries.remove(i);
                proof {
                    assert(forall|j: int|
                        0 <= j < self.entries@.len()
                            ==> (#[trigger] self.entries@[j]).0 != key) by {
                        assert(forall|j: int|
                            0 <= j < self.entries@.len()
                                ==> self.entries@[j] == if j < i { s0[j] } else { s0[j + 1] });
                    }
                }
            },
            None => {},
        }
        let ghost s1 = self.entries@;
        self.entries.push((key, value));
        proof {
            assert(self.entries@.drop_last() =~= s1);
            assert(old(self)@.remove(key).insert(key, value) =~= old(self)@.insert(key, value));
            assert(old(self)@.insert(key, value) =~= assoc_map(s1).insert(key, value));
        }
    }

    /// Removes the record held under `key`; the store is unchanged when the
    /// key is absent.
    pub fn remove(&mut self, key: u64)
        requires
            old(self).wf(),
        ensures
            final(self).wf(),
            final(self)@ == old(self)@.remove(key),
    {
        proof {
            lemma_assoc_contains(self.entries@, key);
        }
        match self.index_of(key) {
            Some(i) => {
                proof {
                    lemma_assoc_remove(self.entries@, i as int);
                }
                self.entries.remove(i);
            },
            None => {
                proof {
                    assert(old(self)@.remove(key) =~= old(self)@);
                }
            },
        }
    }
}

} // verus!
