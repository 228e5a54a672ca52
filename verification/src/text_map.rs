//! A small mapping from names to values that keeps its entries in the
//! order in which their names first came.

use vstd::prelude::*;
use vstd::string::StringExecFns;
use crate::keyed::{
    distinct_keys, find, lemma_position, lemma_position_at, lemma_put_distinct, position, put,
    Entries,
};

verus! {

/// A mapping from names to values. No name occurs twice.
#[derive(Debug)]
pub struct TextMap<V: View> {
    entries: Vec<(String, V)>,
}

impl<V: View> View for TextMap<V> {
    type V = Entries<V::V>;

    closed spec fn view(&self) -> Entries<V::V> {
        self.entries@.map_values(|e: (String, V)| e@)
    }
}

impl<V: View> DeepView for TextMap<V> {
    type V = Entries<V::V>;

    open spec fn deep_view(&self) -> Entries<V::V> {
        self@
    }
}

impl<V: View> TextMap<V> {
    /// The names of the entries are distinct.
    #[verifier::type_invariant]
    pub open spec fn well_formed(&self) -> bool {
        distinct_keys(self@)
    }

    /// The empty mapping.
    pub fn new() -> (map: Self)
        ensures
            map@ == Entries::<V::V>::empty(),
    {
        let map = TextMap { entries: Vec::new() };
        assert(map@ =~= Entries::<V::V>::empty());
        map
    }

    /// The number of entries, which is the number of names.
    pub fn len(&self) -> (n: usize)
        ensures
            n == self@.len(),
            distinct_keys(self@),
    {
        proof {
            use_type_invariant(self);
        }
        self.entries.len()
    }

    /// Where the entry of the name `key` stands, if there is one.
    fn index_of(&self, key: &String) -> (r: Option<usize>)
        ensures
            match r {
                Some(i) => position(self@, key@) == Some(i as int),
                None => position(self@, key@) is None,
            },
    {
        proof {
            use_type_invariant(self);
        }
        let mut i: usize = 0;
        while i < self.entries.len()
            invariant
                i <= self.entries@.len(),
                self@.len() == self.entries@.len(),
                distinct_keys(self@),
                forall|k: int| 0 <= k < i ==> (#[trigger] self@[k]).0 != key@,
            decreases self.entries.len() - i,
        {
            if self.entries[i].0 == *key {
                proof {
                    assert(self@[i as int].0 == key@);
                    assert forall|j: int| i < j < self@.len() implies (#[trigger] self@[j]).0
                        != key@ by {
                        assert(self@[i as int].0 != self@[j].0);
                    }
                    lemma_position_at(self@, key@, i as int);
                }
                return Some(i);
            }
            i += 1;
        }
        proof {
            lemma_position(self@, key@);
            if position(self@, key@) is Some {
                assert(self@[position(self@, key@).unwrap()].0 == key@);
            }
        }
        None
    }

    /// The value under `key`, if the name is present.
    pub fn get(&self, key: &str) -> (r: Option<&V>)
        ensures
            match r {
                Some(value) => find(self@, key@) == Some(value@),
                None => find(self@, key@) is None,
            },
    {
        let name = String::from_str(key);
        match self.index_of(&name) {
            Some(i) => {
                proof {
                    lemma_position(self@, key@);
                }
                Some(&self.entries[i].1)
            },
            None => None,
        }
    }

    /// The entry at position `i`, counted from zero in the order in which
    /// the names first came, if there are that many.
    pub fn entry(&self, i: usize) -> (r: Option<(&String, &V)>)
        ensures
            match r {
                Some(e) => i < self@.len() && e.0@ == self@[i as int].0 && e.1@ == self@[i as int].1,
                None => i >= self@.len(),
            },
    {
        if i < self.entries.len() {
            Some((&self.entries[i].0, &self.entries[i].1))
        } else {
            None
        }
    }

    /// Puts `value` under `key`: in place of the value that was there, or
    /// as a new last entry.
    pub fn insert(&mut self, key: String, value: V)
        ensures
            final(self)@ == put(old(self)@, key@, value@),
    {
        proof {
            use_type_invariant(&*self);
            lemma_put_distinct(self@, key@, value@);
        }
        let found = self.index_of(&key);
        let mut entries: Vec<(String, V)> = Vec::new();
        core::mem::swap(&mut self.entries, &mut entries);
        let ghost before = entries@.map_values(|e: (String, V)| e@);
        assert(before == old(self)@);
        match found {
            Some(i) => {
                proof {
                    lemma_position(before, key@);
                }
                entries.set(i, (key, value));
            },
            None => {
                entries.push((key, value));
            },
        }
        assert(entries@.map_values(|e: (String, V)| e@) =~= put(before, key@, value@));
        self.entries = entries;
    }
}

} // verus!
