//! A small keyed table: the shape in which the chain state holds its
//! entities. Every key occurs at most once.

use vstd::prelude::*;

verus! {

/// Values that can be copied, view for view.
pub trait Replicate: View + Sized {
    fn replicate(&self) -> (copy: Self)
        ensures
            copy@ == self@,
    ;
}

/// Values that can stand as keys: two keys are the same key when their
/// views are equal.
pub trait Key: Replicate {
    fn matches(&self, other: &Self) -> (equal: bool)
        ensures
            equal == (self@ == other@),
    ;
}

/// A finite map from keys to values, held as a list of entries.
pub struct Table<K: Key, V: Replicate> {
    entries: Vec<(K, V)>,
}

/// Entry `i` of the list is the one for `key`.
pub open spec fn entry_for<K: Key, V: Replicate>(entries: Seq<(K, V)>, i: int, key: K::V) -> bool {
    0 <= i < entries.len() && entries[i].0@ == key
}

impl<K: Key, V: Replicate> View for Table<K, V> {
    type V = Map<K::V, V::V>;

    closed spec fn view(&self) -> Map<K::V, V::V> {
        Map::new(
            |key: K::V| exists|i: int| entry_for(self.entries@, i, key),
            |key: K::V| self.entries@[choose|i: int| entry_for(self.entries@, i, key)].1@,
        )
    }
}

impl<K: Key, V: Replicate> Table<K, V> {
    #[verifier::type_invariant]
    spec fn no_key_twice(self) -> bool {
        forall|i: int, j: int|
            0 <= i < j < self.entries@.len() ==> (#[trigger] self.entries@[i]).0@ != (
            #[trigger] self.entries@[j]).0@
    }

    pub fn new() -> (table: Table<K, V>)
        ensures
            table@ == Map::<K::V, V::V>::empty(),
    {
        let table = Table { entries: Vec::new() };
        assert(table@ =~= Map::<K::V, V::V>::empty());
        table
    }

    fn position(&self, key: &K) -> (found: Option<usize>)
        ensures
            match found {
                Some(i) => entry_for(self.entries@, i as int, key@),
                None => forall|i: int| !entry_for(self.entries@, i, key@),
            },
    {
        let mut i: usize = 0;
        while i < self.entries.len()
            invariant
                i <= self.entries@.len(),
                forall|j: int| 0 <= j < i ==> !entry_for(self.entries@, j, key@),
            decreases self.entries@.len() - i,
        {
            if self.entries[i].0.matches(key) {
                return Some(i);
            }
            i += 1;
        }
        None
    }

    /// The value stored under `key`, if there is one.
    pub fn get(&self, key: &K) -> (found: Option<&V>)
        ensures
            match found {
                Some(value) => self@.contains_key(key@) && self@[key@] == value@,
                None => !self@.contains_key(key@),
            },
    {
        proof {
            use_type_invariant(self);
        }
        match self.position(key) {
            Some(i) => {
                assert(entry_for(self.entries@, i as int, key@));
                let ghost chosen = choose|j: int| entry_for(self.entries@, j, key@);
                assert(chosen == i) by {
                    if chosen < i {
                        assert(self.entries@[chosen].0@ != self.entries@[i as int].0@);
                    } else if chosen > i {
                        assert(self.entries@[i as int].0@ != self.entries@[chosen].0@);
                    }
                }
                Some(&self.entries[i].1)
            },
            None => None,
        }
    }

    pub fn contains(&self, key: &K) -> (present: bool)
        ensures
            present == self@.contains_key(key@),
    {
        self.get(key).is_some()
    }

    /// Stores `value` under `key`, in place of what was stored there.
    pub fn insert(&mut self, key: K, value: V)
        ensures
            final(self)@ == old(self)@.insert(key@, value@),
    {
        proof {
            use_type_invariant(&*self);
        }
        let ghost before = self.entries@;
        let found = self.position(&key);
        let mut entries: Vec<(K, V)> = Vec::new();
        core::mem::swap(&mut self.entries, &mut entries);
        match found {
            Some(i) => {
                entries.set(i, (key, value));
                proof {
                    let after = entries@;
                    assert forall|a: int, b: int| 0 <= a < b < after.len() implies (
                    #[trigger] after[a]).0@ != (#[trigger] after[b]).0@ by {
                        assert(before[a].0@ != before[b].0@);
                    }
                }
            },
            None => {
                entries.push((key, value));
                proof {
                    let after = entries@;
                    assert forall|a: int, b: int| 0 <= a < b < after.len() implies (
                    #[trigger] after[a]).0@ != (#[trigger] after[b]).0@ by {
                        if b == before.len() {
                            assert(!entry_for(before, a, key@));
                        } else {
                            assert(before[a].0@ != before[b].0@);
                        }
                    }
                }
            },
        }
        proof {
            Self::lemma_view_of_insert(before, entries@, key@, value@);
        }
        self.entries = entries;
    }

    /// Removes what is stored under `key`; nothing changes where nothing is.
    pub fn remove(&mut self, key: &K)
        ensures
            final(self)@ == old(self)@.remove(key@),
    {
        proof {
            use_type_invariant(&*self);
        }
        let ghost before = self.entries@;
        match self.position(key) {
            Some(i) => {
                let mut entries: Vec<(K, V)> = Vec::new();
                core::mem::swap(&mut self.entries, &mut entries);
                entries.remove(i);
                proof {
                    let after = entries@;
                    assert forall|a: int, b: int| 0 <= a < b < after.len() implies (
                    #[trigger] after[a]).0@ != (#[trigger] after[b]).0@ by {
                        let a0 = if a < i { a } else { a + 1 };
                        let b0 = if b < i { b } else { b + 1 };
                        assert(before[a0].0@ != before[b0].0@);
                    }
                    Self::lemma_view_of_remove(before, entries@, i as int, key@);
                }
                self.entries = entries;
            },
            None => {
                assert(self@ =~= old(self)@.remove(key@));
            },
        }
    }

    /// A copy of the table.
    pub fn duplicate(&self) -> (copy: Table<K, V>)
        ensures
            copy@ == self@,
    {
        proof {
            use_type_invariant(self);
        }
        let mut entries: Vec<(K, V)> = Vec::new();
        let mut i: usize = 0;
        while i < self.entries.len()
            invariant
                i <= self.entries@.len(),
                entries@.len() == i,
                forall|j: int|
                    0 <= j < i ==> (#[trigger] entries@[j]).0@ == self.entries@[j].0@
                        && entries@[j].1@ == self.entries@[j].1@,
            decreases self.entries@.len() - i,
        {
            let key = self.entries[i].0.replicate();
            let value = self.entries[i].1.replicate();
            entries.push((key, value));
            i += 1;
        }
        proof {
            assert forall|a: int, b: int| 0 <= a < b < entries@.len() implies (
            #[trigger] entries@[a]).0@ != (#[trigger] entries@[b]).0@ by {
                assert(self.entries@[a].0@ != self.entries@[b].0@);
            }
            Self::lemma_view_of_copy(self.entries@, entries@);
        }
        Table { entries }
    }

    spec fn view_of(entries: Seq<(K, V)>) -> Map<K::V, V::V> {
        Map::new(
            |key: K::V| exists|i: int| entry_for(entries, i, key),
            |key: K::V| entries[choose|i: int| entry_for(entries, i, key)].1@,
        )
    }

    spec fn distinct(entries: Seq<(K, V)>) -> bool {
        forall|i: int, j: int|
            0 <= i < j < entries.len() ==> (#[trigger] entries[i]).0@ != (#[trigger] entries[j]).0@
    }

    proof fn lemma_lookup(entries: Seq<(K, V)>, i: int)
        requires
            Self::distinct(entries),
            0 <= i < entries.len(),
        ensures
            Self::view_of(entries).contains_key(entries[i].0@),
            Self::view_of(entries)[entries[i].0@] == entries[i].1@,
    {
        let key = entries[i].0@;
        assert(entry_for(entries, i, key));
        let chosen = choose|j: int| entry_for(entries, j, key);
        if chosen < i {
            assert(entries[chosen].0@ != entries[i].0@);
        } else if chosen > i {
            assert(entries[i].0@ != entries[chosen].0@);
        }
    }

    proof fn lemma_view_of_insert(before: Seq<(K, V)>, after: Seq<(K, V)>, key: K::V, value: V::V)
        requires
            Self::distinct(before),
            Self::distinct(after),
            ({
                ||| exists|i: int|
                    entry_for(before, i, key) && after.len() == before.len() && after[i].0@ == key
                        && after[i].1@ == value && forall|j: int|
                        0 <= j < before.len() && j != i ==> after[j] == before[j]
                ||| (forall|i: int| !entry_for(before, i, key)) && after.len() == before.len() + 1
                    && after.last().0@ == key && after.last().1@ == value && forall|j: int|
                    0 <= j < before.len() ==> after[j] == before[j]
            }),
        ensures
            Self::view_of(after) == Self::view_of(before).insert(key, value),
    {
        let old_map = Self::view_of(before);
        let new_map = Self::view_of(after);
        let target = old_map.insert(key, value);
        assert forall|k: K::V| new_map.contains_key(k) <==> target.contains_key(k) by {
            if new_map.contains_key(k) && k != key {
                let j = choose|j: int| entry_for(after, j, k);
                assert(entry_for(before, j, k));
            }
            if target.contains_key(k) && k != key {
                let j = choose|j: int| entry_for(before, j, k);
                assert(entry_for(after, j, k));
            }
            if k == key {
                if exists|i: int| entry_for(before, i, key) {
                    let i = choose|i: int| entry_for(before, i, key);
                    assert(entry_for(after, i, key));
                } else {
                    assert(entry_for(after, after.len() - 1, key));
                }
            }
        }
        assert forall|k: K::V| new_map.contains_key(k) implies new_map[k] == target[k] by {
            let j = choose|j: int| entry_for(after, j, k);
            Self::lemma_lookup(after, j);
            if k != key {
                assert(entry_for(before, j, k));
                Self::lemma_lookup(before, j);
            } else {
                if exists|i: int| entry_for(before, i, key) {
                    let i = choose|i: int| entry_for(before, i, key);
                    assert(entry_for(after, i, key));
                    if i < j {
                        assert(after[i].0@ != after[j].0@);
                    } else if j < i {
                        assert(after[j].0@ != after[i].0@);
                    }
                } else {
                    if j < after.len() - 1 {
                        assert(entry_for(before, j, key));
                    }
                }
            }
        }
        assert(new_map =~= target);
    }

    proof fn lemma_view_of_remove(before: Seq<(K, V)>, after: Seq<(K, V)>, i: int, key: K::V)
        requires
            Self::distinct(before),
            Self::distinct(after),
            entry_for(before, i, key),
            after == before.remove(i),
        ensures
            Self::view_of(after) == Self::view_of(before).remove(key),
    {
        let old_map = Self::view_of(before);
        let new_map = Self::view_of(after);
        let target = old_map.remove(key);
        assert forall|k: K::V| new_map.contains_key(k) <==> target.contains_key(k) by {
            if new_map.contains_key(k) {
                let j = choose|j: int| entry_for(after, j, k);
                let j0 = if j < i { j } else { j + 1 };
                assert(entry_for(before, j0, k));
                if j0 < i {
                    assert(before[j0].0@ != before[i].0@);
                } else {
                    assert(before[i].0@ != before[j0].0@);
                }
            }
            if target.contains_key(k) {
                let j = choose|j: int| entry_for(before, j, k);
                assert(j != i);
                let j1 = if j < i { j } else { j - 1 };
                assert(entry_for(after, j1, k));
            }
        }
        assert forall|k: K::V| new_map.contains_key(k) implies new_map[k] == target[k] by {
            let j = choose|j: int| entry_for(after, j, k);
            let j0 = if j < i { j } else { j + 1 };
            Self::lemma_lookup(after, j);
            assert(entry_for(before, j0, k));
            Self::lemma_lookup(before, j0);
        }
        assert(new_map =~= target);
    }

    proof fn lemma_view_of_copy(source: Seq<(K, V)>, copy: Seq<(K, V)>)
        requires
            Self::distinct(source),
            Self::distinct(copy),
            copy.len() == source.len(),
            forall|j: int|
                0 <= j < source.len() ==> (#[trigger] copy[j]).0@ == source[j].0@ && copy[j].1@
                    == source[j].1@,
        ensures
            Self::view_of(copy) == Self::view_of(source),
    {
        let old_map = Self::view_of(source);
        let new_map = Self::view_of(copy);
        assert forall|k: K::V| new_map.contains_key(k) <==> old_map.contains_key(k) by {
            if new_map.contains_key(k) {
                let j = choose|j: int| entry_for(copy, j, k);
                assert(entry_for(source, j, k));
            }
            if old_map.contains_key(k) {
                let j = choose|j: int| entry_for(source, j, k);
                assert(entry_for(copy, j, k));
            }
        }
        assert forall|k: K::V| new_map.contains_key(k) implies new_map[k] == old_map[k] by {
            let j = choose|j: int| entry_for(copy, j, k);
            Self::lemma_lookup(copy, j);
            assert(entry_for(source, j, k));
            Self::lemma_lookup(source, j);
        }
        assert(new_map =~= old_map);
    }
}

} // verus!
