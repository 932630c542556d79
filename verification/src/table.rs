//! A keyed collection that remembers the order in which its keys came.
//!
//! A [`Table`] maps strings to values as a hash map does and, unlike one,
//! hands its values out in the order in which their keys were first
//! inserted, so that two listings of an unchanged table agree.

use vstd::prelude::*;

verus! {

/// The mathematical content of a [`Table`]: a finite map and the order in
/// which its keys were first inserted.
pub struct TableView<T> {
    pub map: Map<Seq<char>, T>,
    pub order: Seq<Seq<char>>,
}

impl<T> TableView<T> {
    /// The table without entries.
    pub open spec fn empty() -> TableView<T> {
        TableView { map: Map::empty(), order: Seq::empty() }
    }

    /// The order lists each key of the map once, and nothing else.
    pub open spec fn wf(self) -> bool {
        &&& self.order.no_duplicates()
        &&& forall|k: Seq<char>| self.map.contains_key(k) <==> self.order.contains(k)
    }

    /// Whether there is a value under `k`.
    #[verifier::inline]
    pub open spec fn contains(self, k: Seq<char>) -> bool {
        self.map.contains_key(k)
    }

    /// The value under `k`, if there is one.
    pub open spec fn get(self, k: Seq<char>) -> Option<T> {
        if self.map.contains_key(k) {
            Some(self.map[k])
        } else {
            None
        }
    }

    /// The table with `v` under `k`. A key that is already present keeps
    /// its place in the order; a new key is put at the end.
    pub open spec fn put(self, k: Seq<char>, v: T) -> TableView<T> {
        TableView {
            map: self.map.insert(k, v),
            order: if self.map.contains_key(k) {
                self.order
            } else {
                self.order.push(k)
            },
        }
    }

    /// The table without `k`; the other keys keep their order.
    pub open spec fn without(self, k: Seq<char>) -> TableView<T> {
        TableView {
            map: self.map.remove(k),
            order: if self.order.contains(k) {
                self.order.remove(self.order.index_of(k))
            } else {
                self.order
            },
        }
    }

    /// The values in the order of their keys.
    pub open spec fn values(self) -> Seq<T> {
        Seq::new(self.order.len(), |i: int| self.map[self.order[i]])
    }

    /// The keys of a well-formed table are finitely many.
    pub proof fn lemma_finite(self)
        requires
            self.wf(),
        ensures
            self.map.dom().finite(),
            self.map.dom() == self.order.to_set(),
    {
        vstd::seq_lib::seq_to_set_is_finite(self.order);
        assert(self.map.dom() =~= self.order.to_set());
    }

    /// Putting a value into a well-formed table keeps it well formed.
    pub proof fn lemma_put_wf(self, k: Seq<char>, v: T)
        requires
            self.wf(),
        ensures
            self.put(k, v).wf(),
    {
        let after = self.put(k, v);
        assert forall|key: Seq<char>| after.map.contains_key(key) implies after.order.contains(
            key,
        ) by {
            if key == k && !self.map.contains_key(k) {
                assert(after.order[self.order.len() as int] == k);
            } else {
                assert(self.map.contains_key(key));
                assert(self.order.contains(key));
                let i = choose|i: int| 0 <= i < self.order.len() && self.order[i] == key;
                assert(after.order[i] == key);
            }
        }
        assert forall|key: Seq<char>| after.order.contains(key) implies after.map.contains_key(
            key,
        ) by {
            let i = choose|i: int| 0 <= i < after.order.len() && after.order[i] == key;
            if i < self.order.len() {
                assert(self.order[i] == key);
                assert(self.order.contains(key));
            }
        }
        if !self.map.contains_key(k) {
            assert(!self.order.contains(k));
        }
    }

    /// Taking a key out of a well-formed table keeps it well formed.
    pub proof fn lemma_without_wf(self, k: Seq<char>)
        requires
            self.wf(),
        ensures
            self.without(k).wf(),
    {
        let after = self.without(k);
        if self.order.contains(k) {
            let at = self.order.index_of(k);
            assert(0 <= at < self.order.len() && self.order[at] == k);
            assert forall|key: Seq<char>| after.order.contains(key) implies after.map.contains_key(
                key,
            ) by {
                let i = choose|i: int| 0 <= i < after.order.len() && after.order[i] == key;
                let oi = if i < at {
                    i
                } else {
                    i + 1
                };
                assert(self.order[oi] == key);
                assert(self.order.contains(key));
            }
            assert forall|key: Seq<char>| after.map.contains_key(key) implies after.order.contains(
                key,
            ) by {
                assert(self.map.contains_key(key));
                assert(self.order.contains(key));
                let i = choose|i: int| 0 <= i < self.order.len() && self.order[i] == key;
                if i < at {
                    assert(after.order[i] == key);
                } else {
                    assert(after.order[i - 1] == key);
                }
            }
            assert forall|i: int, j: int|
                0 <= i < after.order.len() && 0 <= j < after.order.len() && i != j implies after.order[i]
                != after.order[j] by {
                let oi = if i < at {
                    i
                } else {
                    i + 1
                };
                let oj = if j < at {
                    j
                } else {
                    j + 1
                };
                assert(after.order[i] == self.order[oi]);
                assert(after.order[j] == self.order[oj]);
            }
        } else {
            assert(!self.map.contains_key(k));
            assert(self.map.remove(k) =~= self.map);
        }
    }
}

/// A key of a [`Table`] with its value.
pub struct Entry<V> {
    key: String,
    value: V,
}

/// A map from strings to values that keeps the order of insertion.
pub struct Table<V> {
    entries: Vec<Entry<V>>,
}

impl<V: View> View for Table<V> {
    type V = TableView<V::V>;

    closed spec fn view(&self) -> TableView<V::V> {
        TableView {
            map: Map::new(
                |k: Seq<char>| exists|i: int| 0 <= i < self.entries.len() && self.entries[i].key@ == k,
                |k: Seq<char>|
                    self.entries[choose|i: int|
                        0 <= i < self.entries.len() && self.entries[i].key@ == k].value@,
            ),
            order: Seq::new(self.entries.len() as nat, |i: int| self.entries[i].key@),
        }
    }
}

impl<V> Table<V> {
    #[verifier::type_invariant]
    spec fn keys_are_distinct(self) -> bool {
        forall|i: int, j: int|
            0 <= i < self.entries.len() && 0 <= j < self.entries.len() && i != j
                ==> self.entries[i].key@ != self.entries[j].key@
    }
}

impl<V: View> Table<V> {

    /// What the view says of the entry at a position.
    proof fn lemma_entry(self, i: int)
        requires
            self.keys_are_distinct(),
            0 <= i < self.entries.len(),
        ensures
            self@.order[i] == self.entries[i].key@,
            self@.map.contains_key(self.entries[i].key@),
            self@.map[self.entries[i].key@] == self.entries[i].value@,
            self@.values()[i] == self.entries[i].value@,
    {
        let k = self.entries[i].key@;
        let j = choose|j: int| 0 <= j < self.entries.len() && self.entries[j].key@ == k;
        assert(j == i);
    }

    /// The view of a table is well formed.
    proof fn lemma_view_wf(self)
        requires
            self.keys_are_distinct(),
        ensures
            self@.wf(),
            self@.order.len() == self.entries.len(),
    {
        assert forall|k: Seq<char>| self@.map.contains_key(k) <==> self@.order.contains(k) by {
            if self@.map.contains_key(k) {
                let i = choose|i: int| 0 <= i < self.entries.len() && self.entries[i].key@ == k;
                assert(self@.order[i] == k);
            }
            if self@.order.contains(k) {
                let i = choose|i: int| 0 <= i < self@.order.len() && self@.order[i] == k;
                assert(self.entries[i].key@ == k);
            }
        }
    }

    /// An empty table.
    pub fn new() -> (table: Table<V>)
        ensures
            table@ == TableView::<V::V>::empty(),
    {
        let table = Table { entries: Vec::new() };
        assert(table@.map =~= Map::empty());
        assert(table@.order =~= Seq::empty());
        table
    }

    /// The number of entries.
    pub fn len(&self) -> (count: usize)
        ensures
            count == self@.order.len(),
            self@.wf(),
    {
        proof {
            use_type_invariant(self);
            self.lemma_view_wf();
        }
        self.entries.len()
    }

    /// The position of `key` among the entries.
    fn position(&self, key: &String) -> (found: Option<usize>)
        ensures
            match found {
                Some(i) => i < self.entries.len() && self.entries[i as int].key@ == key@,
                None => forall|i: int| 0 <= i < self.entries.len() ==> self.entries[i].key@ != key@,
            },
    {
        let mut i: usize = 0;
        while i < self.entries.len()
            invariant
                i <= self.entries.len(),
                forall|j: int| 0 <= j < i ==> self.entries[j].key@ != key@,
            decreases self.entries.len() - i,
        {
            if self.entries[i].key == *key {
                return Some(i);
            }
            i = i + 1;
        }
        None
    }

    /// Whether there is a value under `key`.
    pub fn contains_key(&self, key: &String) -> (present: bool)
        ensures
            present == self@.contains(key@),
            self@.wf(),
    {
        proof {
            use_type_invariant(self);
            self.lemma_view_wf();
        }
        self.position(key).is_some()
    }

    /// The value under `key`, if there is one.
    pub fn get(&self, key: &String) -> (found: Option<&V>)
        ensures
            self@.wf(),
            match found {
                Some(value) => self@.get(key@) == Some(value@),
                None => self@.get(key@) is None,
            },
    {
        proof {
            use_type_invariant(self);
            self.lemma_view_wf();
        }
        match self.position(key) {
            Some(i) => {
                proof {
                    self.lemma_entry(i as int);
                }
                Some(&self.entries[i].value)
            },
            None => None,
        }
    }

    /// The value at a position of the insertion order.
    pub fn value_at(&self, i: usize) -> (value: &V)
        requires
            i < self@.order.len(),
        ensures
            value@ == self@.values()[i as int],
    {
        proof {
            use_type_invariant(self);
            self.lemma_view_wf();
            self.lemma_entry(i as int);
        }
        &self.entries[i].value
    }

    /// Puts `value` under `key`, in place of the value that was there or
    /// as a new last entry.
    pub fn insert(&mut self, key: String, value: V)
        ensures
            final(self)@ == old(self)@.put(key@, value@),
            final(self)@.wf(),
    {
        proof {
            use_type_invariant(&*self);
            self.lemma_view_wf();
        }
        let ghost before = *self;
        let found = self.position(&key);
        let mut entries: Vec<Entry<V>> = Vec::new();
        core::mem::swap(&mut self.entries, &mut entries);
        match found {
            Some(i) => {
                entries.set(i, Entry { key, value });
            },
            None => {
                entries.push(Entry { key, value });
            },
        }
        core::mem::swap(&mut self.entries, &mut entries);
        proof {
            let after = *self;
            let expected = before@.put(key@, value@);
            assert(after@.order =~= expected.order) by {
                assert forall|i: int| 0 <= i < after@.order.len() implies after@.order[i]
                    == expected.order[i] by {
                    if i < before.entries.len() {
                        before.lemma_entry(i);
                    }
                }
            }
            assert(after@.map =~= expected.map) by {
                assert forall|k: Seq<char>| after@.map.contains_key(k) implies #[trigger] expected.map.contains_key(k)
                    && after@.map[k] == expected.map[k] by {
                    let i = choose|i: int| 0 <= i < after.entries.len() && after.entries[i].key@ == k;
                    after.lemma_entry(i);
                    if k != key@ {
                        before.lemma_entry(i);
                    }
                }
                assert forall|k: Seq<char>| expected.map.contains_key(k) implies #[trigger] after@.map.contains_key(k) by {
                    if k == key@ {
                        match found {
                            Some(i) => {
                                after.lemma_entry(i as int);
                            },
                            None => {
                                after.lemma_entry(before.entries.len() as int);
                            },
                        }
                    } else {
                        let i = choose|i: int| 0 <= i < before.entries.len() && before.entries[i].key@ == k;
                        after.lemma_entry(i);
                    }
                }
            }
            before@.lemma_put_wf(key@, value@);
        }
    }

    /// Takes the value under `key` out of the table, if there is one.
    pub fn remove(&mut self, key: &String) -> (taken: Option<V>)
        ensures
            final(self)@ == old(self)@.without(key@),
            final(self)@.wf(),
            match taken {
                Some(value) => old(self)@.get(key@) == Some(value@),
                None => old(self)@.get(key@) is None,
            },
    {
        proof {
            use_type_invariant(&*self);
            self.lemma_view_wf();
        }
        let ghost before = *self;
        let found = self.position(key);
        match found {
            Some(i) => {
                let mut entries: Vec<Entry<V>> = Vec::new();
                core::mem::swap(&mut self.entries, &mut entries);
                let entry = entries.remove(i);
                core::mem::swap(&mut self.entries, &mut entries);
                proof {
                    let after = *self;
                    let expected = before@.without(key@);
                    before.lemma_entry(i as int);
                    assert(before@.order.contains(key@));
                    let at = before@.order.index_of(key@);
                    assert(0 <= at < before@.order.len() && before@.order[at] == key@);
                    assert(at == i) by {
                        before.lemma_entry(at);
                    }
                    assert(after@.order =~= expected.order);
                    assert(after@.map =~= expected.map) by {
                        assert forall|k: Seq<char>| after@.map.contains_key(k) implies #[trigger] expected.map.contains_key(k)
                            && after@.map[k] == expected.map[k] by {
                            let j = choose|j: int| 0 <= j < after.entries.len() && after.entries[j].key@ == k;
                            after.lemma_entry(j);
                            if j < i {
                                before.lemma_entry(j);
                            } else {
                                before.lemma_entry(j + 1);
                            }
                        }
                        assert forall|k: Seq<char>| expected.map.contains_key(k) implies #[trigger] after@.map.contains_key(k) by {
                            let j = choose|j: int| 0 <= j < before.entries.len() && before.entries[j].key@ == k;
                            if j < i {
                                after.lemma_entry(j);
                            } else {
                                after.lemma_entry(j - 1);
                            }
                        }
                    }
                    before@.lemma_without_wf(key@);
                }
                Some(entry.value)
            },
            None => {
                proof {
                    assert(!before@.order.contains(key@));
                    assert(before@.map.remove(key@) =~= before@.map);
                }
                None
            },
        }
    }
}

} // verus!
