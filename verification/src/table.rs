use vstd::prelude::*;

verus! {

/// A table from text keys to values in which no key occurs twice.
/// Entries keep the order in which their keys were first inserted.
pub struct KeyedTable<V> {
    entries: Vec<(String, V)>,
}

/// Some entry of `entries` has key `k`.
pub open spec fn has_key<V>(entries: Seq<(String, V)>, k: Seq<char>) -> bool {
    exists|i: int| 0 <= i < entries.len() && #[trigger] entries[i].0@ == k
}

/// The position of an entry of `entries` with key `k`.
pub open spec fn key_index<V>(entries: Seq<(String, V)>, k: Seq<char>) -> int {
    choose|i: int| 0 <= i < entries.len() && #[trigger] entries[i].0@ == k
}

/// No two entries of `entries` have the same key.
pub open spec fn keys_distinct<V>(entries: Seq<(String, V)>) -> bool {
    forall|i: int, j: int|
        0 <= i < entries.len() && 0 <= j < entries.len() && i != j ==> #[trigger] entries[i].0@
            != #[trigger] entries[j].0@
}

impl<V: View> KeyedTable<V> {
    /// The entries, each key taken by its text and each value by its view.
    pub closed spec fn entry_seq(&self) -> Seq<(Seq<char>, V::V)> {
        self.entries@.map_values(|e: (String, V)| (e.0@, e.1@))
    }

    /// The table as a map from key text to the view of the value.
    pub closed spec fn map(&self) -> Map<Seq<char>, V::V> {
        Map::new(
            |k: Seq<char>| has_key(self.entries@, k),
            |k: Seq<char>| self.entries@[key_index(self.entries@, k)].1@,
        )
    }

    /// No key occurs twice.
    pub closed spec fn wf(&self) -> bool {
        keys_distinct(self.entries@)
    }

    proof fn lemma_at(&self, i: int)
        requires
            self.wf(),
            0 <= i < self.entries@.len(),
        ensures
            self.map().contains_key(self.entries@[i].0@),
            self.map()[self.entries@[i].0@] == self.entries@[i].1@,
            key_index(self.entries@, self.entries@[i].0@) == i,
    {
        let k = self.entries@[i].0@;
        assert(has_key(self.entries@, k));
        let j = key_index(self.entries@, k);
        assert(self.entries@[j].0@ == k);
    }

    /// What the entry sequence says of the map: every entry is in the map with its
    /// value, every key of the map has an entry, and no key comes twice.
    pub proof fn lemma_entry_seq(&self)
        requires
            self.wf(),
        ensures
            self.entry_seq().len() == self.map().dom().len(),
            self.map().dom().finite(),
            forall|i: int|
                0 <= i < self.entry_seq().len() ==> {
                    &&& self.map().contains_key(#[trigger] self.entry_seq()[i].0)
                    &&& self.map()[self.entry_seq()[i].0] == self.entry_seq()[i].1
                },
            forall|k: Seq<char>|
                #[trigger] self.map().contains_key(k) ==> exists|i: int|
                    0 <= i < self.entry_seq().len() && #[trigger] self.entry_seq()[i].0 == k,
            forall|i: int, j: int|
                0 <= i < self.entry_seq().len() && 0 <= j < self.entry_seq().len() && i != j
                    ==> #[trigger] self.entry_seq()[i].0 != #[trigger] self.entry_seq()[j].0,
    {
        let es = self.entry_seq();
        assert forall|i: int| 0 <= i < es.len() implies {
            &&& self.map().contains_key(#[trigger] es[i].0)
            &&& self.map()[es[i].0] == es[i].1
        } by {
            self.lemma_at(i);
        }
        assert forall|k: Seq<char>| #[trigger] self.map().contains_key(k) implies exists|i: int|
            0 <= i < es.len() && #[trigger] es[i].0 == k by {
            let i = key_index(self.entries@, k);
            assert(es[i].0 == k);
        }
        let keys = es.map_values(|e: (Seq<char>, V::V)| e.0);
        assert(keys.no_duplicates());
        assert(keys.to_set() =~= self.map().dom()) by {
            assert forall|k: Seq<char>| keys.to_set().contains(k) implies self.map().contains_key(k) by {
                let i = choose|i: int| 0 <= i < keys.len() && keys[i] == k;
                assert(es[i].0 == k);
            }
            assert forall|k: Seq<char>| self.map().contains_key(k) implies keys.to_set().contains(k) by {
                let i = key_index(self.entries@, k);
                assert(keys[i] == k);
            }
        }
        keys.unique_seq_to_set();
    }

    /// An empty table.
    pub fn new() -> (t: Self)
        ensures
            t.wf(),
            t.map() == Map::<Seq<char>, V::V>::empty(),
            t.entry_seq() == Seq::<(Seq<char>, V::V)>::empty(),
    {
        let t = KeyedTable { entries: Vec::new() };
        assert(t.map() =~= Map::<Seq<char>, V::V>::empty());
        assert(t.entry_seq() =~= Seq::<(Seq<char>, V::V)>::empty());
        t
    }

    /// The number of entries.
    pub fn len(&self) -> (n: usize)
        ensures
            n == self.entry_seq().len(),
    {
        self.entries.len()
    }

    /// The entry at position `i`.
    pub fn entry_at(&self, i: usize) -> (e: (&String, &V))
        requires
            i < self.entry_seq().len(),
        ensures
            e.0@ == self.entry_seq()[i as int].0,
            e.1@ == self.entry_seq()[i as int].1,
    {
        let e = &self.entries[i];
        (&e.0, &e.1)
    }

    fn find(&self, key: &String) -> (r: Option<usize>)
        requires
            self.wf(),
        ensures
            match r {
                Some(i) => i < self.entries@.len() && self.entries@[i as int].0@ == key@,
                None => !self.map().contains_key(key@),
            },
    {
        let mut i: usize = 0;
        while i < self.entries.len()
            invariant
                i <= self.entries@.len(),
                forall|j: int| 0 <= j < i ==> #[trigger] self.entries@[j].0@ != key@,
            decreases self.entries@.len() - i,
        {
            if self.entries[i].0 == *key {
                return Some(i);
            }
            i = i + 1;
        }
        None
    }

    /// The value stored under `key`, if any.
    pub fn get(&self, key: &String) -> (r: Option<&V>)
        requires
            self.wf(),
        ensures
            match r {
                Some(v) => self.map().contains_key(key@) && v@ == self.map()[key@],
                None => !self.map().contains_key(key@),
            },
    {
        match self.find(key) {
            Some(i) => {
                proof {
                    self.lemma_at(i as int);
                }
                Some(&self.entries[i].1)
            },
            None => None,
        }
    }

    /// Stores `value` under `key`, replacing what was stored there.
    pub fn insert(&mut self, key: String, value: V)
        requires
            old(self).wf(),
        ensures
            final(self).wf(),
            final(self).map() == old(self).map().insert(key@, value@),
            old(self).map().contains_key(key@) ==> exists|i: int|
                0 <= i < old(self).entry_seq().len() && old(self).entry_seq()[i].0 == key@
                    && final(self).entry_seq() == old(self).entry_seq().update(i, (key@, value@)),
            !old(self).map().contains_key(key@) ==> final(self).entry_seq() == old(
                self,
            ).entry_seq().push((key@, value@)),
    {
        match self.find(&key) {
            Some(i) => {
                let ghost old_entries = self.entries@;
                self.entries.set(i, (key, value));
                proof {
                    assert(self.entry_seq() =~= old(self).entry_seq().update(i as int, (key@, value@)));
                    assert(old(self).entry_seq()[i as int].0 == key@);
                    assert(keys_distinct(self.entries@));
                    assert forall|k: Seq<char>|
                        #![auto]
                        self.map().contains_key(k) == old(self).map().insert(key@, value@).contains_key(k)
                    by {
                        if has_key(old_entries, k) && k != key@ {
                            let j = key_index(old_entries, k);
                            assert(self.entries@[j].0@ == k);
                        }
                        if has_key(self.entries@, k) && k != key@ {
                            let j = key_index(self.entries@, k);
                            assert(old_entries[j].0@ == k);
                        }
                        if k == key@ {
                            assert(self.entries@[i as int].0@ == k);
                        }
                    }
                    assert forall|k: Seq<char>|
                        #![auto]
                        self.map().contains_key(k) implies self.map()[k] == old(self).map().insert(
                            key@,
                            value@,
                        )[k] by {
                        let j = key_index(self.entries@, k);
                        self.lemma_at(j);
                        if k != key@ {
                            assert(old_entries[j].0@ == k);
                            old(self).lemma_at(j);
                        }
                    }
                    assert(self.map() =~= old(self).map().insert(key@, value@));
                }
            },
            None => {
                let ghost old_entries = self.entries@;
                self.entries.push((key, value));
                proof {
                    assert(self.entry_seq() =~= old(self).entry_seq().push((key@, value@)));
                    let n = old_entries.len() as int;
                    assert(keys_distinct(self.entries@)) by {
                        assert forall|i: int| 0 <= i < n implies #[trigger] self.entries@[i].0@ != key@ by {
                            old(self).lemma_at(i);
                        }
                    }
                    assert forall|k: Seq<char>|
                        #![auto]
                        self.map().contains_key(k) == old(self).map().insert(key@, value@).contains_key(k)
                    by {
                        if has_key(old_entries, k) {
                            let j = key_index(old_entries, k);
                            assert(self.entries@[j].0@ == k);
                        }
                        if has_key(self.entries@, k) && k != key@ {
                            let j = key_index(self.entries@, k);
                            assert(j != n);
                            assert(old_entries[j].0@ == k);
                        }
                        if k == key@ {
                            assert(self.entries@[n].0@ == k);
                        }
                    }
                    assert forall|k: Seq<char>|
                        #![auto]
                        self.map().contains_key(k) implies self.map()[k] == old(self).map().insert(
                            key@,
                            value@,
                        )[k] by {
                        let j = key_index(self.entries@, k);
                        self.lemma_at(j);
                        if k != key@ {
                            assert(j != n);
                            assert(old_entries[j].0@ == k);
                            old(self).lemma_at(j);
                        }
                    }
                    assert(self.map() =~= old(self).map().insert(key@, value@));
                }
            },
        }
    }
}

} // verus!
