//! A finite map held as a list of entries, in the order in which the keys
//! were first inserted.

use vstd::prelude::*;
use crate::types::Key;

verus! {

/// A map from `K` to `V`. No key occurs twice; a key that is inserted for the
/// first time goes to the end.
pub struct Table<K, V> {
    keys: Vec<K>,
    values: Vec<V>,
}

impl<K, V> View for Table<K, V> {
    type V = Map<K, V>;

    open spec fn view(&self) -> Map<K, V> {
        Map::new(|k: K| self.contains(k), |k: K| self.value_of(k))
    }
}

impl<K, V> Table<K, V> {
    /// The keys, in the order of their first insertion.
    pub closed spec fn keys(&self) -> Seq<K> {
        self.keys@
    }

    /// The values, each at the index of its key.
    pub closed spec fn values(&self) -> Seq<V> {
        self.values@
    }

    /// Every key has one value and occurs once.
    pub open spec fn wf(&self) -> bool {
        &&& self.keys().len() == self.values().len()
        &&& self.keys().no_duplicates()
    }

    pub open spec fn contains(&self, key: K) -> bool {
        self.keys().contains(key)
    }

    /// The index of a key that the table contains.
    pub open spec fn index_of(&self, key: K) -> int {
        self.keys().index_of(key)
    }

    /// The value of a key that the table contains.
    pub open spec fn value_of(&self, key: K) -> V {
        self.values()[self.index_of(key)]
    }

    /// In a well-formed table a key stands at one index only.
    pub proof fn lemma_index_of(&self, i: int)
        requires
            self.wf(),
            0 <= i < self.keys().len(),
        ensures
            self.contains(self.keys()[i]),
            self.index_of(self.keys()[i]) == i,
            self.value_of(self.keys()[i]) == self.values()[i],
    {
        let key = self.keys()[i];
        assert(self.keys().contains(key));
        let j = self.keys().index_of(key);
        assert(self.keys()[j] == key);
    }
}

impl<K: Key, V> Table<K, V> {
    pub fn new() -> (table: Self)
        ensures
            table.wf(),
            table.keys() == Seq::<K>::empty(),
            table.values() == Seq::<V>::empty(),
            table@ == Map::<K, V>::empty(),
    {
        let table = Table { keys: Vec::new(), values: Vec::new() };
        assert(table@ =~= Map::<K, V>::empty());
        table
    }

    pub fn len(&self) -> (n: usize)
        requires
            self.wf(),
        ensures
            n == self.keys().len(),
            n == self.values().len(),
    {
        self.keys.len()
    }

    pub fn key_at(&self, i: usize) -> (key: &K)
        requires
            self.wf(),
            i < self.keys().len(),
        ensures
            *key == self.keys()[i as int],
    {
        &self.keys[i]
    }

    pub fn value_at(&self, i: usize) -> (value: &V)
        requires
            self.wf(),
            i < self.values().len(),
        ensures
            *value == self.values()[i as int],
    {
        &self.values[i]
    }

    /// The index at which `key` stands.
    pub fn find(&self, key: &K) -> (found: Option<usize>)
        requires
            self.wf(),
        ensures
            match found {
                Some(i) => self.contains(*key) && i == self.index_of(*key) && i
                    < self.keys().len(),
                None => !self.contains(*key),
            },
    {
        let mut i: usize = 0;
        while i < self.keys.len()
            invariant
                self.wf(),
                i <= self.keys@.len(),
                forall|j: int| 0 <= j < i ==> self.keys@[j] != *key,
            decreases self.keys@.len() - i,
        {
            if self.keys[i].same(key) {
                proof {
                    self.lemma_index_of(i as int);
                }
                return Some(i);
            }
            i += 1;
        }
        None
    }

    /// The value of `key`, where it has one.
    pub fn get(&self, key: &K) -> (value: Option<&V>)
        requires
            self.wf(),
        ensures
            match value {
                Some(v) => self.contains(*key) && *v == self.value_of(*key),
                None => !self.contains(*key),
            },
    {
        match self.find(key) {
            Some(i) => Some(&self.values[i]),
            None => None,
        }
    }

    /// Gives `key` the value `value`.
    pub fn insert(&mut self, key: K, value: V)
        requires
            old(self).wf(),
        ensures
            final(self).wf(),
            final(self)@ == old(self)@.insert(key, value),
            old(self).contains(key) ==> final(self).keys() == old(self).keys() && final(self).values() == old(self).values().update(old(self).index_of(key), value),
            !old(self).contains(key) ==> final(self).keys() == old(self).keys().push(key)
                && final(self).values() == old(self).values().push(value),
    {
        let ghost before = *self;
        match self.find(&key) {
            Some(i) => {
                self.values.set(i, value);
                proof {
                    assert forall|k: K| self.contains(k) implies #[trigger] self.value_of(k)
                        == before@.insert(key, value)[k] by {
                        if k != key {
                            assert(before.contains(k));
                        }
                    }
                    assert(self@ =~= before@.insert(key, value));
                }
            },
            None => {
                self.keys.push(key);
                self.values.push(value);
                proof {
                    let n = before.keys().len() as int;
                    assert(self.keys()[n] == key);
                    assert forall|k: K| self.contains(k) <==> (k == key || before.contains(k)) by {
                        if before.contains(k) {
                            let j = before.keys().index_of(k);
                            assert(self.keys()[j] == k);
                        }
                    }
                    assert forall|k: K| self.contains(k) implies #[trigger] self.value_of(k)
                        == before@.insert(key, value)[k] by {
                        let j = self.keys().index_of(k);
                        if k != key {
                            assert(before.keys()[j] == k);
                            before.lemma_index_of(j);
                        }
                    }
                    assert(self@ =~= before@.insert(key, value));
                }
            },
        }
    }

    /// Takes `key` and its value out.
    pub fn remove(&mut self, key: &K)
        requires
            old(self).wf(),
        ensures
            final(self).wf(),
            final(self)@ == old(self)@.remove(*key),
            old(self).contains(*key) ==> final(self).keys() == old(self).keys().remove(
                old(self).index_of(*key),
            ) && final(self).values() == old(self).values().remove(old(self).index_of(*key)),
            !old(self).contains(*key) ==> final(self).keys() == old(self).keys() && final(self).values() == old(self).values(),
    {
        let ghost before = *self;
        match self.find(key) {
            Some(i) => {
                self.keys.remove(i);
                self.values.remove(i);
                proof {
                    let at = i as int;
                    assert forall|k: K| self.contains(k) <==> (k != *key && before.contains(k)) by {
                        if self.contains(k) {
                            let j = self.keys().index_of(k);
                            let j0 = if j < at { j } else { j + 1 };
                            assert(before.keys()[j0] == k);
                        }
                        if k != *key && before.contains(k) {
                            let j0 = before.keys().index_of(k);
                            let j = if j0 < at { j0 } else { j0 - 1 };
                            assert(self.keys()[j] == k);
                        }
                    }
                    assert forall|k: K| self.contains(k) implies #[trigger] self.value_of(k)
                        == before@.remove(*key)[k] by {
                        let j = self.keys().index_of(k);
                        let j0 = if j < at { j } else { j + 1 };
                        assert(before.keys()[j0] == k);
                        before.lemma_index_of(j0);
                    }
                    assert(self@ =~= before@.remove(*key));
                }
            },
            None => {
                assert(self@ =~= before@.remove(*key));
            },
        }
    }
}

impl<K: Key, V> Table<K, V> {
    /// The table that holds `values[i]` for `keys[i]`, where there is one:
    /// the two must be of one length, and no key may occur twice.
    pub fn from_entries(keys: Vec<K>, values: Vec<V>) -> (table: Option<Self>)
        ensures
            match table {
                Some(table) => table.wf() && table.keys() == keys@ && table.values() == values@,
                None => keys@.len() != values@.len() || !keys@.no_duplicates(),
            },
    {
        if keys.len() != values.len() {
            return None;
        }
        let mut i: usize = 0;
        while i < keys.len()
            invariant
                i <= keys@.len(),
                forall|a: int, b: int| 0 <= a < b < i ==> keys@[a] != keys@[b],
            decreases keys@.len() - i,
        {
            let mut j: usize = 0;
            while j < i
                invariant
                    j <= i < keys@.len(),
                    forall|b: int| 0 <= b < j ==> keys@[b] != keys@[i as int],
                decreases i - j,
            {
                if keys[j].same(&keys[i]) {
                    return None;
                }
                j += 1;
            }
            i += 1;
        }
        Some(Table { keys, values })
    }

    /// The keys and the values of the table, each value at the index of
    /// its key.
    pub fn into_entries(self) -> (entries: (Vec<K>, Vec<V>))
        ensures
            entries.0@ == self.keys(),
            entries.1@ == self.values(),
    {
        (self.keys, self.values)
    }
}

} // verus!
