//! A small keyed store with a map view.
//!
//! The engine keeps several per-key tables: per-surface extension
//! controllers, per-touch-point routing slots, per-window foreign
//! toplevel records. All of them are [`KvList`] values: a vector of
//! `(key, value)` pairs with pairwise-distinct keys, viewed in
//! contracts as a [`Map`] from key to value.

use vstd::prelude::*;

verus! {

/// The key type of the engine's keyed stores.
pub type Key = u64;

/// Pairs with pairwise-distinct keys.
pub open spec fn unique_keys<V>(s: Seq<(Key, V)>) -> bool {
    forall|i: int, j: int| 0 <= i < j < s.len() ==> s[i].0 != s[j].0
}

/// The map a sequence of pairs denotes; later pairs would win, but the
/// store keeps keys distinct.
pub open spec fn seq_to_map<V>(s: Seq<(Key, V)>) -> Map<Key, V>
    decreases s.len(),
{
    if s.len() == 0 {
        Map::empty()
    } else {
        seq_to_map(s.drop_last()).insert(s.last().0, s.last().1)
    }
}

/// With distinct keys, the denoted map holds exactly the pairs of the
/// sequence.
pub proof fn lemma_seq_to_map_agrees<V>(s: Seq<(Key, V)>)
    requires
        unique_keys(s),
    ensures
        forall|k: Key|
            seq_to_map(s).contains_key(k) <==> exists|i: int|
                0 <= i < s.len() && #[trigger] s[i].0 == k,
        forall|i: int|
            0 <= i < s.len() ==> seq_to_map(s).contains_key(#[trigger] s[i].0) && seq_to_map(s)[
                s[i].0
            ] == s[i].1,
    decreases s.len(),
{
    if s.len() > 0 {
        let prefix = s.drop_last();
        assert(unique_keys(prefix));
        lemma_seq_to_map_agrees(prefix);
        assert forall|k: Key| seq_to_map(s).contains_key(k) implies exists|i: int|
            0 <= i < s.len() && #[trigger] s[i].0 == k by {
            if k == s.last().0 {
                assert(s[s.len() - 1].0 == k);
            } else {
                assert(seq_to_map(s) == seq_to_map(prefix).insert(s.last().0, s.last().1));
                assert(seq_to_map(prefix).contains_key(k));
                let i = choose|i: int| 0 <= i < prefix.len() && #[trigger] prefix[i].0 == k;
                assert(s[i] == prefix[i]);
                assert(s[i].0 == k);
            }
        }
        assert forall|i: int| 0 <= i < s.len() implies seq_to_map(s).contains_key(
            #[trigger] s[i].0,
        ) && seq_to_map(s)[s[i].0] == s[i].1 by {
            if i < s.len() - 1 {
                assert(prefix[i] == s[i]);
                assert(s[i].0 != s.last().0);
            }
        }
    }
}

/// Removing the pair at the key's index denotes removing the key from
/// the map.
pub proof fn lemma_seq_to_map_remove<V>(s: Seq<(Key, V)>, i: int)
    requires
        unique_keys(s),
        0 <= i < s.len(),
    ensures
        unique_keys(s.remove(i)),
        seq_to_map(s.remove(i)) =~= seq_to_map(s).remove(s[i].0),
    decreases s.len(),
{
    lemma_seq_to_map_agrees(s);
    let k = s[i].0;
    let removed = s.remove(i);
    assert(unique_keys(removed));
    lemma_seq_to_map_agrees(removed);
    assert forall|k2: Key| seq_to_map(removed).contains_key(k2) implies seq_to_map(s).remove(
        k,
    ).contains_key(k2) && seq_to_map(removed)[k2] == seq_to_map(s).remove(k)[k2] by {
        let j = choose|j: int| 0 <= j < removed.len() && #[trigger] removed[j].0 == k2;
        let j_orig: int = if j < i {
            j
        } else {
            j + 1
        };
        assert(s[j_orig] == removed[j]);
        assert(k2 != k);
    }
    assert forall|k2: Key| seq_to_map(s).remove(k).contains_key(k2) implies seq_to_map(
        removed,
    ).contains_key(k2) by {
        let j = choose|j: int| 0 <= j < s.len() && #[trigger] s[j].0 == k2;
        assert(j != i);
        let j_removed: int = if j < i {
            j
        } else {
            j - 1
        };
        assert(removed[j_removed] == s[j]);
    }
}

/// A keyed store: distinct keys, viewed as a map.
#[derive(Debug, Clone)]
pub struct KvList<V> {
    pub entries: Vec<(Key, V)>,
}

impl<V> View for KvList<V> {
    type V = Map<Key, V>;

    open spec fn view(&self) -> Map<Key, V> {
        seq_to_map(self.entries@)
    }
}

impl<V> KvList<V> {
    /// The store's keys are pairwise distinct.
    pub open spec fn wf(self) -> bool {
        unique_keys(self.entries@)
    }

    /// An empty store.
    pub fn new() -> (r: KvList<V>)
        ensures
            r.wf(),
            r@ =~= Map::<Key, V>::empty(),
    {
        KvList { entries: Vec::new() }
    }

    /// How many keys the store holds.
    pub fn len(&self) -> (r: usize)
        ensures
            r == self.entries@.len(),
    {
        self.entries.len()
    }

    /// The position of `key` among the entries, if present.
    fn index_of(&self, key: Key) -> (r: Option<usize>)
        requires
            self.wf(),
        ensures
            match r {
                Some(i) => i < self.entries@.len() && self.entries@[i as int].0 == key,
                None => forall|i: int| 0 <= i < self.entries@.len() ==> self.entries@[i].0 != key,
            },
    {
        let mut i: usize = 0;
        while i < self.entries.len()
            invariant
                i <= self.entries@.len(),
                forall|j: int| 0 <= j < i ==> self.entries@[j].0 != key,
            decreases self.entries@.len() - i,
        {
            if self.entries[i].0 == key {
                return Some(i);
            }
            i = i + 1;
        }
        None
    }

    /// Whether the store holds `key`.
    pub fn contains_key(&self, key: Key) -> (r: bool)
        requires
            self.wf(),
        ensures
            r == self@.contains_key(key),
    {
        proof {
            lemma_seq_to_map_agrees(self.entries@);
        }
        self.index_of(key).is_some()
    }

    /// The value stored at `key`, if any.
    pub fn get(&self, key: Key) -> (r: Option<&V>)
        requires
            self.wf(),
        ensures
            r is Some <==> self@.contains_key(key),
            r is Some ==> r->0 == self@[key],
    {
        proof {
            lemma_seq_to_map_agrees(self.entries@);
        }
        match self.index_of(key) {
            Some(i) => Some(&self.entries[i].1),
            None => None,
        }
    }

    /// Store `value` at the fresh key `key`.
    pub fn insert(&mut self, key: Key, value: V)
        requires
            old(self).wf(),
            !old(self)@.contains_key(key),
        ensures
            final(self).wf(),
            final(self)@ =~= old(self)@.insert(key, value),
            final(self).entries@ == old(self).entries@.push((key, value)),
    {
        proof {
            lemma_seq_to_map_agrees(self.entries@);
        }
        self.entries.push((key, value));
        proof {
            assert(self.entries@.drop_last() =~= old(self).entries@);
        }
    }

    /// Replace the value at `key`, or store it fresh.
    pub fn upsert(&mut self, key: Key, value: V)
        requires
            old(self).wf(),
        ensures
            final(self).wf(),
            final(self)@ =~= old(self)@.insert(key, value),
    {
        proof {
            lemma_seq_to_map_agrees(self.entries@);
        }
        match self.index_of(key) {
            Some(i) => {
                proof {
                    lemma_seq_to_map_remove(self.entries@, i as int);
                }
                self.entries.remove(i);
                proof {
                    lemma_seq_to_map_agrees(self.entries@);
                }
                self.entries.push((key, value));
                proof {
                    assert(self.entries@.drop_last() =~= old(self).entries@.remove(i as int));
                    assert(final(self)@ =~= old(self)@.insert(key, value));
                }
            },
            None => {
                self.entries.push((key, value));
                proof {
                    assert(self.entries@.drop_last() =~= old(self).entries@);
                }
            },
        }
    }

    /// Drop the entry at `key`, if any. Returns whether one was there.
    pub fn remove(&mut self, key: Key) -> (r: bool)
        requires
            old(self).wf(),
        ensures
            final(self).wf(),
            r == old(self)@.contains_key(key),
            final(self)@ =~= old(self)@.remove(key),
    {
        proof {
            lemma_seq_to_map_agrees(self.entries@);
        }
        match self.index_of(key) {
            Some(i) => {
                proof {
                    lemma_seq_to_map_remove(self.entries@, i as int);
                }
                self.entries.remove(i);
                true
            },
            None => {
                proof {
                    assert(final(self)@ =~= old(self)@.remove(key));
                }
                false
            },
        }
    }

    /// Empty the store.
    pub fn clear(&mut self)
        ensures
            final(self).wf(),
            final(self)@ =~= Map::<Key, V>::empty(),
            final(self).entries@.len() == 0,
    {
        self.entries.clear();
    }
}

} // verus!
