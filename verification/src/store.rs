//! Key-value stores: the traits that session and stage storage is written against,
//! and the in-memory stores that implement them.

use vstd::prelude::*;

verus! {

/// A store of values addressed by keys of type `K`.
pub trait SimpleStore<K, V: Clone>: Sized {
    type Error;

    /// What the store holds.
    spec fn contents(&self) -> Map<K, V>;

    /// Whether every operation on this store succeeds.
    spec fn infallible(&self) -> bool;

    /// Reads the value stored under `key`.
    fn get(&self, key: &K) -> (r: Result<Option<V>, Self::Error>)
        ensures
            self.infallible() ==> r is Ok,
            r matches Ok(o) ==> match o {
                Some(v) => self.contents().contains_key(*key) && cloned(self.contents()[*key], v),
                None => !self.contents().contains_key(*key),
            },
    ;

    /// Stores `value` under `key`, replacing what was there.
    fn set(&mut self, key: K, value: V) -> (r: Result<(), Self::Error>)
        ensures
            final(self).infallible() == old(self).infallible(),
            old(self).infallible() ==> r is Ok,
            r is Ok ==> final(self).contents() == old(self).contents().insert(key, value),
    ;

    /// Removes what is stored under `key`.
    fn del(&mut self, key: &K) -> (r: Result<(), Self::Error>)
        ensures
            final(self).infallible() == old(self).infallible(),
            old(self).infallible() ==> r is Ok,
            r is Ok ==> final(self).contents() == old(self).contents().remove(*key),
    ;

    /// Removes everything.
    fn clear(&mut self) -> (r: Result<(), Self::Error>)
        ensures
            final(self).infallible() == old(self).infallible(),
            old(self).infallible() ==> r is Ok,
            r is Ok ==> final(self).contents() == Map::<K, V>::empty(),
    ;
}

/// A store that holds at most one value.
pub trait CellStore<V: Clone>: Sized {
    type Error;

    /// What the cell holds.
    spec fn cell(&self) -> Option<V>;

    /// Whether every operation on this store succeeds.
    spec fn infallible(&self) -> bool;

    /// Reads the value held.
    fn get(&self) -> (r: Result<Option<V>, Self::Error>)
        ensures
            self.infallible() ==> r is Ok,
            r matches Ok(o) ==> match o {
                Some(v) => self.cell() matches Some(c) && cloned(c, v),
                None => self.cell() is None,
            },
    ;

    /// Holds `value`, replacing what was held.
    fn set(&mut self, value: V) -> (r: Result<(), Self::Error>)
        ensures
            final(self).infallible() == old(self).infallible(),
            old(self).infallible() ==> r is Ok,
            r is Ok ==> final(self).cell() == Some(value),
    ;

    /// Empties the cell.
    fn clear(&mut self) -> (r: Result<(), Self::Error>)
        ensures
            final(self).infallible() == old(self).infallible(),
            old(self).infallible() ==> r is Ok,
            r is Ok ==> final(self).cell() is None,
    ;
}

/// A key that a map store can compare by its view and copy exactly.
pub trait StoreKey: View + Sized {
    /// Whether two keys are the same.
    fn same_key(&self, other: &Self) -> (r: bool)
        ensures
            r == (self@ == other@),
    ;

    /// A copy of the key.
    fn copy_key(&self) -> (r: Self)
        ensures
            r == *self,
    ;
}

impl StoreKey for String {
    fn same_key(&self, other: &Self) -> (r: bool) {
        *self == *other
    }

    fn copy_key(&self) -> (r: Self) {
        self.clone()
    }
}

/// A store of values addressed by keys, compared by their views.
pub trait MapStore<K: View, V: Clone>: Sized {
    type Error;

    /// What the store holds.
    spec fn contents(&self) -> Map<K::V, V>;

    /// Whether every operation on this store succeeds.
    spec fn infallible(&self) -> bool;

    /// Reads the value stored under `key`.
    fn get(&self, key: &K) -> (r: Result<Option<V>, Self::Error>)
        ensures
            self.infallible() ==> r is Ok,
            r matches Ok(o) ==> match o {
                Some(v) => self.contents().contains_key(key@) && cloned(self.contents()[key@], v),
                None => !self.contents().contains_key(key@),
            },
    ;

    /// Stores `value` under `key`, replacing what was there.
    fn set(&mut self, key: K, value: V) -> (r: Result<(), Self::Error>)
        ensures
            final(self).infallible() == old(self).infallible(),
            old(self).infallible() ==> r is Ok,
            r is Ok ==> final(self).contents() == old(self).contents().insert(key@, value),
    ;

    /// Removes what is stored under `key`.
    fn del(&mut self, key: &K) -> (r: Result<(), Self::Error>)
        ensures
            final(self).infallible() == old(self).infallible(),
            old(self).infallible() ==> r is Ok,
            r is Ok ==> final(self).contents() == old(self).contents().remove(key@),
    ;

    /// Removes everything.
    fn clear(&mut self) -> (r: Result<(), Self::Error>)
        ensures
            final(self).infallible() == old(self).infallible(),
            old(self).infallible() ==> r is Ok,
            r is Ok ==> final(self).contents() == Map::<K::V, V>::empty(),
    ;
}

/// The error of the in-memory stores, which never occurs.
pub struct Error;

/// A store that holds at most one value.
pub struct MemoryCellStore<V> {
    store: Option<V>,
}

impl<V> MemoryCellStore<V> {
    /// What the cell holds.
    pub closed spec fn value(&self) -> Option<V> {
        self.store
    }

}

impl<V> Default for MemoryCellStore<V> {
    /// An empty cell.
    fn default() -> (r: Self)
        ensures
            r.value() is None,
    {
        MemoryCellStore { store: None }
    }
}

impl<V: Clone> CellStore<V> for MemoryCellStore<V> {
    type Error = Error;

    open spec fn cell(&self) -> Option<V> {
        self.value()
    }

    open spec fn infallible(&self) -> bool {
        true
    }

    fn get(&self) -> (r: Result<Option<V>, Error>) {
        Ok(self.store.clone())
    }

    fn set(&mut self, value: V) -> (r: Result<(), Error>) {
        self.store = Some(value);
        Ok(())
    }

    fn clear(&mut self) -> (r: Result<(), Error>) {
        self.store = None;
        Ok(())
    }
}

impl<V: Clone> SimpleStore<(), V> for MemoryCellStore<V> {
    type Error = Error;

    open spec fn contents(&self) -> Map<(), V> {
        match self.value() {
            Some(v) => map![() => v],
            None => Map::empty(),
        }
    }

    open spec fn infallible(&self) -> bool {
        true
    }

    fn get(&self, key: &()) -> (r: Result<Option<V>, Error>) {
        Ok(self.store.clone())
    }

    fn set(&mut self, key: (), value: V) -> (r: Result<(), Error>) {
        self.store = Some(value);
        assert(self.contents() =~= old(self).contents().insert(key, value));
        Ok(())
    }

    fn del(&mut self, key: &()) -> (r: Result<(), Error>) {
        self.store = None;
        assert(self.contents() =~= old(self).contents().remove(*key));
        Ok(())
    }

    fn clear(&mut self) -> (r: Result<(), Error>) {
        self.store = None;
        assert(self.contents() =~= Map::<(), V>::empty());
        Ok(())
    }
}

/// Whether no two entries share a key.
pub open spec fn distinct_keys<K: View, V>(entries: Seq<(K, V)>) -> bool {
    forall|i: int, j: int|
        0 <= i < entries.len() && 0 <= j < entries.len() && i != j ==> entries[i].0@ != entries[j].0@
}

/// The map that a list of entries with distinct keys stands for.
pub open spec fn entries_map<K: View, V>(entries: Seq<(K, V)>) -> Map<K::V, V> {
    Map::new(
        |k: K::V| exists|i: int| 0 <= i < entries.len() && entries[i].0@ == k,
        |k: K::V| entries[choose|i: int| 0 <= i < entries.len() && entries[i].0@ == k].1,
    )
}

proof fn lemma_entries_map_at<K: View, V>(entries: Seq<(K, V)>, i: int)
    requires
        distinct_keys(entries),
        0 <= i < entries.len(),
    ensures
        entries_map(entries).contains_key(entries[i].0@),
        entries_map(entries)[entries[i].0@] == entries[i].1,
{
    let k = entries[i].0@;
    assert(entries_map(entries).dom().contains(k));
    let j = choose|j: int| 0 <= j < entries.len() && entries[j].0@ == k;
    assert(j == i);
}

proof fn lemma_entries_map_push<K: View, V>(entries: Seq<(K, V)>, e: (K, V))
    requires
        distinct_keys(entries.push(e)),
    ensures
        entries_map(entries.push(e)) == entries_map(entries).insert(e.0@, e.1),
        !entries_map(entries).contains_key(e.0@),
        distinct_keys(entries),
{
    let s = entries.push(e);
    let n = entries.len() as int;
    assert forall|a: K::V| #![auto]
        entries_map(s).contains_key(a) == entries_map(entries).insert(e.0@, e.1).contains_key(a)
    by {
        if entries_map(entries).contains_key(a) {
            let j = choose|j: int| 0 <= j < entries.len() && entries[j].0@ == a;
            assert(s[j].0@ == a);
        }
        if entries_map(s).contains_key(a) && a != e.0@ {
            let j = choose|j: int| 0 <= j < s.len() && s[j].0@ == a;
            assert(entries[j].0@ == a);
        }
        if a == e.0@ {
            assert(s[n].0@ == a);
        }
    }
    assert forall|a: K::V| #[trigger] entries_map(s).contains_key(a)
        implies entries_map(s)[a] == entries_map(entries).insert(e.0@, e.1)[a]
    by {
        let j = choose|j: int| 0 <= j < s.len() && s[j].0@ == a;
        lemma_entries_map_at(s, j);
        if j != n {
            assert(distinct_keys(entries)) by {
                assert forall|x: int, y: int|
                    0 <= x < entries.len() && 0 <= y < entries.len() && x != y
                    implies entries[x].0@ != entries[y].0@ by {
                    assert(s[x] == entries[x] && s[y] == entries[y]);
                }
            }
            lemma_entries_map_at(entries, j);
            assert(s[j] == entries[j]);
            assert(s[j].0@ != s[n].0@);
        } else {
            assert(s[n] == e);
        }
    }
    assert(entries_map(s) =~= entries_map(entries).insert(e.0@, e.1));
    if entries_map(entries).contains_key(e.0@) {
        let j = choose|j: int| 0 <= j < entries.len() && entries[j].0@ == e.0@;
        assert(s[j].0@ == s[n].0@);
    }
    assert forall|x: int, y: int| 0 <= x < entries.len() && 0 <= y < entries.len() && x != y
        implies entries[x].0@ != entries[y].0@ by {
        assert(s[x] == entries[x] && s[y] == entries[y]);
    }
}

proof fn lemma_entries_map_len<K: View, V>(entries: Seq<(K, V)>)
    requires
        distinct_keys(entries),
    ensures
        entries_map(entries).dom().finite(),
        entries_map(entries).len() == entries.len(),
    decreases entries.len(),
{
    if entries.len() == 0 {
        assert(entries_map(entries) =~= Map::<K::V, V>::empty());
    } else {
        let t = entries.drop_last();
        let e = entries.last();
        assert(t.push(e) =~= entries);
        lemma_entries_map_push(t, e);
        lemma_entries_map_len(t);
    }
}

/// A store of values addressed by keys, held in memory.
pub struct MemoryMapStore<K: View, V> {
    entries: Vec<(K, V)>,
}

impl<K: View, V> MemoryMapStore<K, V> {
    #[verifier::type_invariant]
    spec fn wf(&self) -> bool {
        distinct_keys(self.entries@)
    }

    /// What the store holds.
    pub closed spec fn map(&self) -> Map<K::V, V> {
        entries_map(self.entries@)
    }

}

impl<K: View, V> Default for MemoryMapStore<K, V> {
    /// An empty store.
    fn default() -> (r: Self)
        ensures
            r.map() == Map::<K::V, V>::empty(),
    {
        let r = MemoryMapStore { entries: Vec::new() };
        assert(r.map() =~= Map::<K::V, V>::empty());
        r
    }
}

impl<K: StoreKey, V> MemoryMapStore<K, V> {
    /// The number of keys held.
    pub fn len(&self) -> (r: usize)
        ensures
            r == self.map().len(),
    {
        proof {
            use_type_invariant(self);
            lemma_entries_map_len(self.entries@);
        }
        self.entries.len()
    }

    /// The position of the entry under `key`, if any.
    fn find(&self, key: &K) -> (r: Option<usize>)
        ensures
            match r {
                Some(i) => i < self.entries@.len() && self.entries@[i as int].0@ == key@,
                None => forall|i: int| 0 <= i < self.entries@.len() ==> self.entries@[i].0@ != key@,
            },
    {
        let mut i: usize = 0;
        while i < self.entries.len()
            invariant
                i <= self.entries@.len(),
                forall|j: int| 0 <= j < i ==> self.entries@[j].0@ != key@,
            decreases self.entries@.len() - i,
        {
            if self.entries[i].0.same_key(key) {
                return Some(i);
            }
            i = i + 1;
        }
        None
    }
}

impl<K: StoreKey, V: Clone> MapStore<K, V> for MemoryMapStore<K, V> {
    type Error = Error;

    open spec fn contents(&self) -> Map<K::V, V> {
        self.map()
    }

    open spec fn infallible(&self) -> bool {
        true
    }

    fn get(&self, key: &K) -> (r: Result<Option<V>, Error>) {
        proof { use_type_invariant(self); }
        match self.find(key) {
            Some(i) => {
                proof { lemma_entries_map_at(self.entries@, i as int); }
                Ok(Some(self.entries[i].1.clone()))
            },
            None => Ok(None),
        }
    }

    fn set(&mut self, key: K, value: V) -> (r: Result<(), Error>) {
        proof { use_type_invariant(&*self); }
        let ghost k = key@;
        let ghost old_entries = self.entries@;
        match self.find(&key) {
            Some(i) => {
                let mut entries = Vec::new();
                std::mem::swap(&mut entries, &mut self.entries);
                entries.set(i, (key, value));
                proof { assert(distinct_keys(entries@)) by {
                    assert forall|a: int, b: int| 0 <= a < entries@.len() && 0 <= b < entries@.len() && a != b
                        implies entries@[a].0@ != entries@[b].0@ by {
                        if a != i && b != i { assert(old_entries[a].0@ != old_entries[b].0@); }
                        else if a == i { assert(old_entries[b].0@ != old_entries[a].0@); }
                        else { assert(old_entries[a].0@ != old_entries[b].0@); }
                    }
                } }
                self.entries = entries;
                proof {
                    let ne = self.entries@;
                    assert(ne == old_entries.update(i as int, (key, value)));
                    assert forall|a: K::V| #![auto]
                        self.map().contains_key(a) == old(self).map().insert(k, value).contains_key(a)
                    by {
                        if a != k {
                            if old(self).map().contains_key(a) {
                                let j = choose|j: int| 0 <= j < old_entries.len() && old_entries[j].0@ == a;
                                assert(ne[j].0@ == a);
                            }
                            if self.map().contains_key(a) {
                                let j = choose|j: int| 0 <= j < ne.len() && ne[j].0@ == a;
                                assert(old_entries[j].0@ == a);
                            }
                        } else {
                            assert(ne[i as int].0@ == k);
                        }
                    }
                    assert forall|a: K::V| #[trigger] self.map().contains_key(a)
                        implies self.map()[a] == old(self).map().insert(k, value)[a]
                    by {
                        let j = choose|j: int| 0 <= j < ne.len() && ne[j].0@ == a;
                        lemma_entries_map_at(ne, j);
                        if j != i {
                            lemma_entries_map_at(old_entries, j);
                        }
                    }
                    assert(self.map() =~= old(self).map().insert(k, value));
                }
            },
            None => {
                let mut entries = Vec::new();
                std::mem::swap(&mut entries, &mut self.entries);
                entries.push((key, value));
                self.entries = entries;
                proof {
                    let ne = self.entries@;
                    assert(ne == old_entries.push((key, value)));
                    let last = old_entries.len() as int;
                    assert forall|a: K::V| #![auto]
                        self.map().contains_key(a) == old(self).map().insert(k, value).contains_key(a)
                    by {
                        if a != k {
                            if old(self).map().contains_key(a) {
                                let j = choose|j: int| 0 <= j < old_entries.len() && old_entries[j].0@ == a;
                                assert(ne[j].0@ == a);
                            }
                            if self.map().contains_key(a) {
                                let j = choose|j: int| 0 <= j < ne.len() && ne[j].0@ == a;
                                assert(old_entries[j].0@ == a);
                            }
                        } else {
                            assert(ne[last].0@ == k);
                        }
                    }
                    assert forall|a: K::V| #[trigger] self.map().contains_key(a)
                        implies self.map()[a] == old(self).map().insert(k, value)[a]
                    by {
                        let j = choose|j: int| 0 <= j < ne.len() && ne[j].0@ == a;
                        lemma_entries_map_at(ne, j);
                        if j != last {
                            lemma_entries_map_at(old_entries, j);
                        }
                    }
                    assert(self.map() =~= old(self).map().insert(k, value));
                }
            },
        }
        Ok(())
    }

    fn del(&mut self, key: &K) -> (r: Result<(), Error>) {
        proof { use_type_invariant(&*self); }
        let ghost k = key@;
        let ghost old_entries = self.entries@;
        match self.find(key) {
            Some(i) => {
                let mut entries = Vec::new();
                std::mem::swap(&mut entries, &mut self.entries);
                entries.remove(i);
                proof { assert(distinct_keys(entries@)) by {
                    assert forall|a: int, b: int| 0 <= a < entries@.len() && 0 <= b < entries@.len() && a != b
                        implies entries@[a].0@ != entries@[b].0@ by {
                        let a2 = if a < i { a } else { a + 1 };
                        let b2 = if b < i { b } else { b + 1 };
                        assert(entries@[a] == old_entries[a2]);
                        assert(entries@[b] == old_entries[b2]);
                    }
                } }
                self.entries = entries;
                proof {
                    let ne = self.entries@;
                    assert(ne == old_entries.remove(i as int));
                    assert forall|a: K::V| #![auto]
                        self.map().contains_key(a) == old(self).map().remove(k).contains_key(a)
                    by {
                        if old(self).map().contains_key(a) && a != k {
                            let j = choose|j: int| 0 <= j < old_entries.len() && old_entries[j].0@ == a;
                            if j < i {
                                assert(ne[j].0@ == a);
                            } else {
                                assert(ne[j - 1].0@ == a);
                            }
                        }
                        if self.map().contains_key(a) {
                            let j = choose|j: int| 0 <= j < ne.len() && ne[j].0@ == a;
                            if j < i {
                                assert(old_entries[j].0@ == a);
                            } else {
                                assert(old_entries[j + 1].0@ == a);
                            }
                        }
                    }
                    assert forall|a: K::V| #[trigger] self.map().contains_key(a)
                        implies self.map()[a] == old(self).map().remove(k)[a]
                    by {
                        let j = choose|j: int| 0 <= j < ne.len() && ne[j].0@ == a;
                        lemma_entries_map_at(ne, j);
                        if j < i {
                            lemma_entries_map_at(old_entries, j);
                        } else {
                            lemma_entries_map_at(old_entries, j + 1);
                        }
                    }
                    assert(self.map() =~= old(self).map().remove(k));
                }
            },
            None => {
                assert(self.map() =~= old(self).map().remove(k));
            },
        }
        Ok(())
    }

    fn clear(&mut self) -> (r: Result<(), Error>) {
        self.entries = Vec::new();
        assert(self.map() =~= Map::<K::V, V>::empty());
        Ok(())
    }
}

} // verus!
