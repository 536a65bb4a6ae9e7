//! An insertion-ordered map from parameter names to declarations.

use vstd::prelude::*;

verus! {

/// Some entry of `entries` has the key `key`.
pub open spec fn has_key<T>(entries: Seq<(Seq<char>, T)>, key: Seq<char>) -> bool {
    exists|i: int| 0 <= i < entries.len() && (#[trigger] entries[i]).0 == key
}

/// No two entries of `entries` have the same key.
pub open spec fn distinct_keys<T>(entries: Seq<(Seq<char>, T)>) -> bool {
    forall|i: int, j: int|
        0 <= i < j < entries.len() ==> (#[trigger] entries[i]).0 != (#[trigger] entries[j]).0
}

/// A map from parameter names to declarations that keeps its entries in the
/// order in which their names were first inserted.
///
/// Its value is the sequence of its entries; no name occurs twice in it.
/// Two maps are equal when they hold equal entries in the same order.
#[derive(Debug, PartialEq)]
pub struct ParamMap<V> {
    entries: Vec<(String, V)>,
}

impl<V: View> View for ParamMap<V> {
    type V = Seq<(Seq<char>, V::V)>;

    closed spec fn view(&self) -> Seq<(Seq<char>, V::V)> {
        Seq::new(self.entries@.len(), |i: int| (self.entries@[i].0@, self.entries@[i].1@))
    }
}

impl<V> ParamMap<V> {
    #[verifier::type_invariant]
    spec fn names_are_distinct(&self) -> bool {
        forall|i: int, j: int|
            0 <= i < j < self.entries@.len() ==> (#[trigger] self.entries@[i]).0@
                != (#[trigger] self.entries@[j]).0@
    }
}

impl<V: View> ParamMap<V> {
    /// An empty map.
    pub fn new() -> (map: Self)
        ensures
            map@ == Seq::<(Seq<char>, V::V)>::empty(),
    {
        let map = ParamMap { entries: Vec::new() };
        assert(map@ =~= Seq::empty());
        map
    }

    /// The number of entries. No two of them have the same name.
    pub fn len(&self) -> (n: usize)
        ensures
            n == self@.len(),
            distinct_keys(self@),
    {
        proof {
            use_type_invariant(self);
        }
        self.entries.len()
    }

    /// Whether the map has no entry.
    pub fn is_empty(&self) -> (empty: bool)
        ensures
            empty == (self@.len() == 0),
    {
        self.entries.len() == 0
    }

    /// The position of the entry named `key`, if there is one.
    fn position(&self, key: &str) -> (found: Option<usize>)
        ensures
            match found {
                Some(i) => i < self@.len() && self@[i as int].0 == key@,
                None => !has_key(self@, key@),
            },
    {
        let wanted = key.to_owned();
        let mut i: usize = 0;
        while i < self.entries.len()
            invariant
                i <= self.entries@.len(),
                wanted@ == key@,
                forall|j: int| 0 <= j < i ==> (#[trigger] self@[j]).0 != key@,
            decreases self.entries@.len() - i,
        {
            if self.entries[i].0 == wanted {
                return Some(i);
            }
            i += 1;
        }
        None
    }

    /// Whether an entry is named `key`.
    pub fn contains_key(&self, key: &str) -> (found: bool)
        ensures
            found == has_key(self@, key@),
    {
        self.position(key).is_some()
    }

    /// The declaration named `key`, if there is one.
    pub fn get(&self, key: &str) -> (found: Option<&V>)
        ensures
            match found {
                Some(value) => exists|i: int|
                    0 <= i < self@.len() && #[trigger] self@[i] == (key@, value@),
                None => !has_key(self@, key@),
            },
    {
        match self.position(key) {
            Some(i) => {
                assert(self@[i as int] == (key@, self.entries@[i as int].1@));
                Some(&self.entries[i].1)
            },
            None => None,
        }
    }

    /// The entry at position `index`, or `None` past the end.
    pub fn get_index(&self, index: usize) -> (found: Option<(&String, &V)>)
        ensures
            match found {
                Some((key, value)) => index < self@.len() && self@[index as int] == (
                    key@,
                    value@,
                ),
                None => index >= self@.len(),
            },
    {
        if index < self.entries.len() {
            Some((&self.entries[index].0, &self.entries[index].1))
        } else {
            None
        }
    }

    /// Puts `value` under the name `key`. A name that the map already has
    /// keeps its place and gets the new declaration, and the one it had is
    /// returned; a new name goes to the end.
    pub fn insert(&mut self, key: String, value: V) -> (replaced: Option<V>)
        ensures
            distinct_keys(final(self)@),
            has_key(old(self)@, key@) ==> replaced is Some && exists|i: int|
                0 <= i < old(self)@.len() && (#[trigger] old(self)@[i]).0 == key@ && final(self)@
                    == old(self)@.update(i, (key@, value@)) && replaced.unwrap()@ == old(
                    self,
                )@[i].1,
            !has_key(old(self)@, key@) ==> final(self)@ == old(self)@.push((key@, value@))
                && replaced is None,
    {
        proof {
            use_type_invariant(&*self);
        }
        let ghost before = self@;
        let ghost pair = (key@, value@);
        let found = self.position(&key);
        let mut entries: Vec<(String, V)> = Vec::new();
        core::mem::swap(&mut self.entries, &mut entries);
        match found {
            Some(i) => {
                let previous = entries.remove(i);
                entries.insert(i, (key, value));
                self.entries = entries;
                assert(self@ =~= before.update(i as int, pair));
                assert(before[i as int].0 == pair.0);
                Some(previous.1)
            },
            None => {
                assert forall|j: int| 0 <= j < entries@.len() implies (#[trigger] entries@[j]).0@
                    != key@ by {
                    assert(before[j].0 == entries@[j].0@);
                }
                entries.push((key, value));
                self.entries = entries;
                assert(self@ =~= before.push(pair));
                None
            },
        }
    }

    /// Takes the entry named `key` out of the map and returns its
    /// declaration; the entries behind it move up. A map without that name
    /// stays as it is.
    pub fn remove(&mut self, key: &str) -> (removed: Option<V>)
        ensures
            distinct_keys(final(self)@),
            has_key(old(self)@, key@) ==> removed is Some && exists|i: int|
                0 <= i < old(self)@.len() && (#[trigger] old(self)@[i]).0 == key@ && final(self)@
                    == old(self)@.remove(i) && removed.unwrap()@ == old(self)@[i].1,
            !has_key(old(self)@, key@) ==> final(self)@ == old(self)@ && removed is None,
    {
        proof {
            use_type_invariant(&*self);
        }
        let ghost before = self@;
        match self.position(key) {
            Some(i) => {
                let mut entries: Vec<(String, V)> = Vec::new();
                core::mem::swap(&mut self.entries, &mut entries);
                let taken = entries.remove(i);
                self.entries = entries;
                assert(self@ =~= before.remove(i as int));
                assert(before[i as int].0 == key@);
                assert forall|a: int, b: int| 0 <= a < b < self@.len() implies (#[trigger] self@[a]).0
                    != (#[trigger] self@[b]).0 by {
                    let a0 = if a < i { a } else { a + 1 };
                    let b0 = if b < i { b } else { b + 1 };
                    assert(before[a0].0 != before[b0].0);
                }
                Some(taken.1)
            },
            None => None,
        }
    }
}

} // verus!