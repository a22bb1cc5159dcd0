//! A keyed record store: every key holds at most one record.

use vstd::prelude::*;

verus! {

/// A key that can be compared at run time for what its view says.
pub trait Key: View + Sized {
    /// Whether two keys stand for the same mathematical key.
    fn same(&self, other: &Self) -> (r: bool)
        ensures
            r == (self@ == other@),
    ;
}

/// Records of type `V` stored under keys of type `K`, seen as the map from
/// each key's view to the view of the record it holds.
pub struct Table<K: Key, V: View> {
    keys: Vec<K>,
    values: Vec<V>,
    /// Where each key's record stands.
    index: Ghost<Map<K::V, int>>,
}

impl<K: Key, V: View> View for Table<K, V> {
    type V = Map<K::V, V::V>;

    closed spec fn view(&self) -> Map<K::V, V::V> {
        Map::new(
            |k: K::V| self.index@.contains_key(k),
            |k: K::V| self.values@[self.index@[k]]@,
        )
    }
}

impl<K: Key, V: View> Table<K, V> {
    /// The representation is sound: keys and records pair up, and the index
    /// names, for each key present, the one slot that holds it.
    pub closed spec fn wf(&self) -> bool {
        &&& self.keys@.len() == self.values@.len()
        &&& forall|i: int|
            0 <= i < self.keys@.len() ==> self.index@.contains_key(#[trigger] self.keys@[i]@)
                && self.index@[self.keys@[i]@] == i
        &&& forall|k: K::V| #[trigger]
            self.index@.contains_key(k) ==> 0 <= self.index@[k] < self.keys@.len()
                && self.keys@[self.index@[k]]@ == k
    }

    /// A table that holds nothing.
    pub fn new() -> (table: Self)
        ensures
            table.wf(),
            table@ == Map::<K::V, V::V>::empty(),
    {
        let table = Table { keys: Vec::new(), values: Vec::new(), index: Ghost(Map::empty()) };
        assert(table@ =~= Map::<K::V, V::V>::empty());
        table
    }

    /// The slot that holds `key`, if any does.
    fn find(&self, key: &K) -> (slot: Option<usize>)
        requires
            self.wf(),
        ensures
            match slot {
                Some(i) => i < self.keys@.len() && self.index@.contains_key(key@)
                    && self.index@[key@] == i,
                None => !self.index@.contains_key(key@),
            },
    {
        let mut i: usize = 0;
        while i < self.keys.len()
            invariant
                self.wf(),
                i <= self.keys@.len(),
                forall|j: int| 0 <= j < i ==> self.keys@[j]@ != key@,
            decreases self.keys@.len() - i,
        {
            if self.keys[i].same(key) {
                return Some(i);
            }
            i += 1;
        }
        None
    }

    /// Whether a record is stored under `key`.
    pub fn contains_key(&self, key: &K) -> (present: bool)
        requires
            self.wf(),
        ensures
            present == self@.contains_key(key@),
    {
        self.find(key).is_some()
    }

    /// The record stored under `key`, if there is one.
    pub fn get(&self, key: &K) -> (record: Option<&V>)
        requires
            self.wf(),
        ensures
            match record {
                Some(value) => self@.contains_key(key@) && value@ == self@[key@],
                None => !self@.contains_key(key@),
            },
    {
        match self.find(key) {
            Some(i) => Some(&self.values[i]),
            None => None,
        }
    }

    /// Stores `value` under `key`, in place of whatever was stored there.
    pub fn insert(&mut self, key: K, value: V)
        requires
            old(self).wf(),
        ensures
            final(self).wf(),
            final(self)@ == old(self)@.insert(key@, value@),
    {
        match self.find(&key) {
            Some(i) => {
                self.values[i] = value;
                assert(self@ =~= old(self)@.insert(key@, value@));
            },
            None => {
                let ghost slot = self.keys@.len() as int;
                self.keys.push(key);
                self.values.push(value);
                proof {
                    self.index@ = self.index@.insert(key@, slot);
                }
                assert(self@ =~= old(self)@.insert(key@, value@));
            },
        }
    }
}

} // verus!
