//! A small association list that stands where an ordered map is wanted: no
//! key occurs twice, and entries keep the order in which their keys arrived.

use vstd::prelude::*;

verus! {

/// A key: a value with a view, and an equality test that decides whether two
/// keys have the same view.
pub trait MapKey: View + Sized {
    fn key_eq(&self, other: &Self) -> (result: bool)
        ensures
            result == (self@ == other@),
    ;
}

/// A map from keys to values. Its view is the map itself; `keys` gives the
/// order in which the entries are walked.
pub struct KeyedMap<K: MapKey, V> {
    entries: Vec<(K, V)>,
}

impl<K: MapKey, V> View for KeyedMap<K, V> {
    type V = Map<K::V, V>;

    closed spec fn view(&self) -> Map<K::V, V> {
        Map::new(
            |k: K::V| self.keys().contains(k),
            |k: K::V| self.entries@[self.keys().index_of(k)].1,
        )
    }
}

impl<K: MapKey, V> KeyedMap<K, V> {
    /// The keys in the order in which the entries are walked.
    pub closed spec fn keys(&self) -> Seq<K::V> {
        Seq::new(self.entries@.len(), |i: int| self.entries@[i].0@)
    }

    #[verifier::type_invariant]
    spec fn distinct_keys(&self) -> bool {
        self.keys().no_duplicates()
    }

    /// What the order of the keys and the map have to do with each other.
    pub open spec fn consistent(&self) -> bool {
        &&& self.keys().no_duplicates()
        &&& forall|k: K::V| self@.contains_key(k) <==> self.keys().contains(k)
    }

    /// Every key of the map has a place among the keys.
    pub proof fn lemma_place_of(&self, k: K::V)
        requires
            self.consistent(),
            self@.contains_key(k),
        ensures
            0 <= self.keys().index_of(k) < self.keys().len(),
            self.keys()[self.keys().index_of(k)] == k,
    {
        assert(self.keys().contains(k));
        let i = choose|i: int| 0 <= i < self.keys().len() && self.keys()[i] == k;
        assert(self.keys()[i] == k);
    }

    /// The first key is a key of the map.
    pub proof fn lemma_first_key(&self)
        requires
            self.keys().len() > 0,
        ensures
            self@.contains_key(self.keys()[0]),
    {
        assert(self.keys().contains(self.keys()[0]));
    }

    proof fn lemma_view_at(&self, i: int)
        requires
            self.keys().no_duplicates(),
            0 <= i < self.entries@.len(),
        ensures
            self@.contains_key(self.entries@[i].0@),
            self@[self.entries@[i].0@] == self.entries@[i].1,
            self.keys()[i] == self.entries@[i].0@,
    {
        let k = self.entries@[i].0@;
        assert(self.keys()[i] == k);
        let j = self.keys().index_of(k);
        assert(self.keys()[j] == k);
    }

    /// Takes the entries out and leaves the map empty.
    fn take_entries(&mut self) -> (result: Vec<(K, V)>)
        ensures
            result == old(self).entries,
            final(self).entries@.len() == 0,
    {
        let mut hole = KeyedMap { entries: Vec::new() };
        assert(hole.keys() =~= Seq::<K::V>::empty());
        core::mem::swap(self, &mut hole);
        hole.entries
    }

    pub fn new() -> (result: Self)
        ensures
            result@ == Map::<K::V, V>::empty(),
            result.keys() == Seq::<K::V>::empty(),
    {
        let result = KeyedMap { entries: Vec::new() };
        assert(result.keys() =~= Seq::<K::V>::empty());
        assert(result@ =~= Map::<K::V, V>::empty());
        result
    }

    pub fn len(&self) -> (result: usize)
        ensures
            result == self.keys().len(),
            result == self@.dom().len(),
            self@.dom().finite(),
            self.consistent(),
    {
        proof {
            use_type_invariant(self);
            self.keys().unique_seq_to_set();
            assert(self@.dom() =~= self.keys().to_set());
        }
        self.entries.len()
    }

    pub fn is_empty(&self) -> (result: bool)
        ensures
            result == (self@ == Map::<K::V, V>::empty()),
            result == (self.keys().len() == 0),
    {
        proof {
            if self.entries@.len() == 0 {
                assert(self@ =~= Map::<K::V, V>::empty());
            } else {
                assert(self.keys()[0] == self.entries@[0].0@);
                assert(self@.contains_key(self.entries@[0].0@));
            }
        }
        self.entries.len() == 0
    }

    /// The place of `key` among the keys, if it is one of them.
    pub fn position(&self, key: &K) -> (result: Option<usize>)
        ensures
            self.consistent(),
            match result {
                Some(i) => i < self.keys().len() && self.keys()[i as int] == key@
                    && self@.contains_key(key@),
                None => !self@.contains_key(key@),
            },
    {
        proof {
            use_type_invariant(self);
        }
        let mut i: usize = 0;
        while i < self.entries.len()
            invariant
                i <= self.entries@.len(),
                self.keys().no_duplicates(),
                forall|j: int| 0 <= j < i ==> self.keys()[j] != key@,
            decreases self.entries@.len() - i,
        {
            if self.entries[i].0.key_eq(key) {
                proof {
                    self.lemma_view_at(i as int);
                }
                return Some(i);
            }
            i += 1;
        }
        None
    }

    pub fn contains_key(&self, key: &K) -> (result: bool)
        ensures
            result == self@.contains_key(key@),
    {
        self.position(key).is_some()
    }

    pub fn get(&self, key: &K) -> (result: Option<&V>)
        ensures
            match result {
                Some(v) => self@.contains_key(key@) && *v == self@[key@],
                None => !self@.contains_key(key@),
            },
    {
        match self.position(key) {
            Some(i) => {
                proof {
                    use_type_invariant(self);
                    self.lemma_view_at(i as int);
                }
                Some(&self.entries[i].1)
            },
            None => None,
        }
    }

    /// The key at place `i`.
    pub fn key_at(&self, i: usize) -> (result: &K)
        requires
            i < self.keys().len(),
        ensures
            result@ == self.keys()[i as int],
            self@.contains_key(result@),
    {
        proof {
            use_type_invariant(self);
            self.lemma_view_at(i as int);
        }
        &self.entries[i].0
    }

    /// The value at place `i`.
    pub fn value_at(&self, i: usize) -> (result: &V)
        requires
            i < self.keys().len(),
        ensures
            self@.contains_key(self.keys()[i as int]),
            *result == self@[self.keys()[i as int]],
    {
        proof {
            use_type_invariant(self);
            self.lemma_view_at(i as int);
        }
        &self.entries[i].1
    }

    /// Binds `key` to `value`. A key that is new goes to the end; one that is
    /// there keeps its place.
    pub fn insert(&mut self, key: K, value: V)
        ensures
            final(self)@ == old(self)@.insert(key@, value),
            final(self).keys() == if old(self)@.contains_key(key@) {
                old(self).keys()
            } else {
                old(self).keys().push(key@)
            },
    {
        proof {
            use_type_invariant(&*self);
        }
        let ghost before = *self;
        match self.position(&key) {
            Some(i) => {
                let mut entries = self.take_entries();
                entries[i] = (key, value);
                proof {
                    let ghost after = KeyedMap { entries };
                    assert(after.keys() =~= before.keys());
                }
                *self = KeyedMap { entries };
                proof {
                    assert(self.keys() =~= before.keys());
                    assert forall|k: K::V| #[trigger] self@.contains_key(k) implies self@[k]
                        == before@.insert(key@, value)[k] by {
                        let j = self.keys().index_of(k);
                        assert(self.keys()[j] == k);
                        if j != i as int {
                            assert(self.entries@[j] == before.entries@[j]);
                        }
                    }
                    assert(self@ =~= before@.insert(key@, value));
                }
            },
            None => {
                let mut entries = self.take_entries();
                entries.push((key, value));
                proof {
                    let ghost after = KeyedMap { entries };
                    assert(after.keys() =~= before.keys().push(key@));
                }
                *self = KeyedMap { entries };
                proof {
                    assert(self.keys() =~= before.keys().push(key@));
                    assert(self.keys().no_duplicates());
                    assert forall|k: K::V|
                        self@.contains_key(k) <==> before@.insert(key@, value).contains_key(
                            k,
                        ) by {
                        if before.keys().contains(k) {
                            let j = before.keys().index_of(k);
                            assert(self.keys()[j] == k);
                        }
                        if k == key@ {
                            assert(self.keys()[before.keys().len() as int] == k);
                        }
                    }
                    assert forall|k: K::V| #[trigger] self@.contains_key(k) implies self@[k]
                        == before@.insert(key@, value)[k] by {
                        let j = self.keys().index_of(k);
                        assert(self.keys()[j] == k);
                        if j < before.entries@.len() {
                            assert(before.keys()[j] == k);
                            let j2 = before.keys().index_of(k);
                            assert(before.keys()[j2] == k);
                            assert(j2 == j);
                        }
                    }
                    assert(self@ =~= before@.insert(key@, value));
                }
            },
        }
    }

    /// The entries, in the order in which they are walked.
    pub fn into_entries(self) -> (result: Vec<(K, V)>)
        ensures
            result@.len() == self.keys().len(),
            self.keys().no_duplicates(),
            forall|i: int|
                0 <= i < result@.len() ==> (#[trigger] result@[i]).0@ == self.keys()[i]
                    && self@.contains_key(self.keys()[i]) && result@[i].1 == self@[self.keys()[i]],
            forall|k: K::V| self@.contains_key(k) ==> self.keys().contains(k),
    {
        proof {
            use_type_invariant(&self);
            assert forall|i: int| 0 <= i < self.entries@.len() implies (
            #[trigger] self.entries@[i]).0@ == self.keys()[i] && self@.contains_key(self.keys()[i])
                && self.entries@[i].1 == self@[self.keys()[i]] by {
                self.lemma_view_at(i);
            }
        }
        self.entries
    }

    /// Takes `key` out, and gives its value.
    pub fn remove(&mut self, key: &K) -> (result: Option<V>)
        ensures
            final(self)@ == old(self)@.remove(key@),
            match result {
                Some(v) => old(self)@.contains_key(key@) && v == old(self)@[key@]
                    && final(self).keys() == old(self).keys().remove(
                        old(self).keys().index_of(key@),
                    ),
                None => !old(self)@.contains_key(key@) && final(self).keys() == old(self).keys(),
            },
    {
        match self.remove_entry(key) {
            Some((_, value)) => Some(value),
            None => None,
        }
    }

    /// Takes `key` out, and gives the entry that was held under it.
    pub fn remove_entry(&mut self, key: &K) -> (result: Option<(K, V)>)
        ensures
            final(self)@ == old(self)@.remove(key@),
            match result {
                Some(entry) => old(self)@.contains_key(key@) && entry.0@ == key@ && entry.1 == old(
                    self,
                )@[key@] && final(self).keys() == old(self).keys().remove(
                    old(self).keys().index_of(key@),
                ),
                None => !old(self)@.contains_key(key@) && final(self).keys() == old(self).keys(),
            },
    {
        proof {
            use_type_invariant(&*self);
        }
        let ghost before = *self;
        match self.position(key) {
            Some(i) => {
                proof {
                    before.lemma_view_at(i as int);
                    let j0 = before.keys().index_of(key@);
                    assert(before.keys()[j0] == key@);
                    assert(j0 == i as int);
                }
                let mut entries = self.take_entries();
                let entry = entries.remove(i);
                let ghost value = entry.1;
                proof {
                    let ghost after = KeyedMap { entries };
                    assert(after.keys() =~= before.keys().remove(i as int));
                    assert forall|a: int, b: int|
                        0 <= a < after.keys().len() && 0 <= b < after.keys().len() && a
                            != b implies after.keys()[a] != after.keys()[b] by {
                        let a2 = if a < i { a } else { a + 1 };
                        let b2 = if b < i { b } else { b + 1 };
                        assert(after.keys()[a] == before.keys()[a2]);
                        assert(after.keys()[b] == before.keys()[b2]);
                    }
                }
                *self = KeyedMap { entries };
                proof {
                    assert(self.keys() =~= before.keys().remove(i as int));
                    assert forall|a: int, b: int|
                        0 <= a < self.keys().len() && 0 <= b < self.keys().len() && a
                            != b implies self.keys()[a] != self.keys()[b] by {
                        let a2 = if a < i { a } else { a + 1 };
                        let b2 = if b < i { b } else { b + 1 };
                        assert(self.keys()[a] == before.keys()[a2]);
                        assert(self.keys()[b] == before.keys()[b2]);
                    }
                    assert forall|k: K::V|
                        self@.contains_key(k) <==> before@.remove(key@).contains_key(k) by {
                        if self.keys().contains(k) {
                            let a = self.keys().index_of(k);
                            assert(self.keys()[a] == k);
                            let a2 = if a < i { a } else { a + 1 };
                            assert(before.keys()[a2] == k);
                        }
                        if before.keys().contains(k) && k != key@ {
                            let a2 = before.keys().index_of(k);
                            assert(before.keys()[a2] == k);
                            let a = if a2 < i { a2 } else { a2 - 1 };
                            assert(self.keys()[a] == k);
                        }
                    }
                    assert forall|k: K::V| #[trigger] self@.contains_key(k) implies self@[k]
                        == before@.remove(key@)[k] by {
                        let a = self.keys().index_of(k);
                        assert(self.keys()[a] == k);
                        let a2 = if a < i { a } else { a + 1 };
                        assert(before.keys()[a2] == k);
                        let a3 = before.keys().index_of(k);
                        assert(before.keys()[a3] == k);
                        assert(a3 == a2);
                    }
                    assert(self@ =~= before@.remove(key@));
                }
                Some(entry)
            },
            None => {
                proof {
                    assert(self@ =~= before@.remove(key@));
                }
                None
            },
        }
    }
}

} // verus!
