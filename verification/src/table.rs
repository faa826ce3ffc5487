//! A small map from names to values, kept in the order of first insertion.

use vstd::prelude::*;
use crate::text::same_text;

verus! {

/// A map keyed by name. Each name occurs once; inserting under a name that
/// is present replaces its value.
#[derive(Debug)]
pub struct Table<V> {
    entries: Vec<(String, V)>,
}

impl<V> Table<V> {
    /// The index of an entry named `key`, if it points at one.
    pub closed spec fn at(self, i: int, key: Seq<char>) -> bool {
        0 <= i < self.entries@.len() && self.entries@[i].0@ == key
    }

    /// No name occurs twice.
    #[verifier::type_invariant]
    pub closed spec fn wf(self) -> bool {
        forall|i: int, j: int|
            0 <= i < self.entries@.len() && 0 <= j < self.entries@.len()
                && #[trigger] self.entries@[i].0@ == #[trigger] self.entries@[j].0@ ==> i == j
    }

    /// The names in the table, in the order of their first insertion.
    pub closed spec fn keys(self) -> Seq<Seq<char>> {
        self.entries@.map_values(|e: (String, V)| e.0@)
    }

    /// The values in the table, each at the position of its name.
    pub closed spec fn values(self) -> Seq<V> {
        self.entries@.map_values(|e: (String, V)| e.1)
    }

    /// The number of names in the table.
    pub open spec fn spec_len(self) -> nat {
        self.keys().len()
    }

    /// The names and the values line up, each name maps to the value at
    /// its position, and no name occurs twice.
    pub proof fn lemma_entries(self)
        requires
            self.wf(),
        ensures
            self.keys().len() == self.values().len(),
            forall|i: int| 0 <= i < self.keys().len() ==> self@.contains_key(#[trigger] self.keys()[i])
                && self@[self.keys()[i]] == self.values()[i],
            forall|k: Seq<char>| #[trigger] self@.contains_key(k) <==> self.keys().contains(k),
            forall|i: int, j: int| 0 <= i < j < self.keys().len() ==> #[trigger] self.keys()[i] != #[trigger] self.keys()[j],
    {
        assert forall|i: int| 0 <= i < self.keys().len() implies self@.contains_key(#[trigger] self.keys()[i])
            && self@[self.keys()[i]] == self.values()[i] by {
            self.lemma_unique(i, self.keys()[i]);
        }
        assert forall|k: Seq<char>| #[trigger] self@.contains_key(k) <==> self.keys().contains(k) by {
            if self@.contains_key(k) {
                let i = choose|i: int| self.at(i, k);
                assert(self.keys()[i] == k);
            }
            if self.keys().contains(k) {
                let i = choose|i: int| 0 <= i < self.keys().len() && self.keys()[i] == k;
                assert(self.at(i, k));
            }
        }
        assert forall|i: int, j: int| 0 <= i < j < self.keys().len() implies #[trigger] self.keys()[i] != #[trigger] self.keys()[j] by {
            if self.keys()[i] == self.keys()[j] {
                assert(self.entries@[i].0@ == self.entries@[j].0@);
            }
        }
    }

    proof fn lemma_unique(self, i: int, key: Seq<char>)
        requires
            self.wf(),
            self.at(i, key),
        ensures
            self@.contains_key(key),
            self@[key] == self.entries@[i].1,
    {
        let j = choose|j: int| self.at(j, key);
        assert(self.entries@[i].0@ == self.entries@[j].0@);
    }

    /// An empty table.
    pub fn new() -> (t: Table<V>)
        ensures
            t@ == Map::<Seq<char>, V>::empty(),
            t.keys() == Seq::<Seq<char>>::empty(),
            t.values() == Seq::<V>::empty(),
    {
        Table { entries: Vec::new() }
    }

    /// The number of names in the table.
    pub fn len(&self) -> (n: usize)
        ensures
            n == self.keys().len(),
            n == self.values().len(),
            self.wf(),
    {
        proof {
            use_type_invariant(self);
        }
        self.entries.len()
    }

    /// The name at position `i`.
    pub fn key_at(&self, i: usize) -> (k: &String)
        requires
            i < self.keys().len(),
        ensures
            k@ == self.keys()[i as int],
    {
        &self.entries[i].0
    }

    /// The value at position `i`.
    pub fn value_at(&self, i: usize) -> (v: &V)
        requires
            i < self.values().len(),
        ensures
            *v == self.values()[i as int],
    {
        &self.entries[i].1
    }

    fn position(&self, key: &str) -> (r: Option<usize>)
        ensures
            match r {
                Some(i) => self.at(i as int, key@),
                None => forall|i: int| !self.at(i, key@),
            },
    {
        let mut i: usize = 0;
        while i < self.entries.len()
            invariant
                i <= self.entries.len(),
                forall|j: int| 0 <= j < i ==> !self.at(j, key@),
            decreases self.entries.len() - i,
        {
            if same_text(&self.entries[i].0, key) {
                return Some(i);
            }
            i += 1;
        }
        None
    }

    /// Whether `key` has a value.
    pub fn contains_key(&self, key: &str) -> (b: bool)
        ensures
            b == self@.contains_key(key@),
    {
        proof {
            use_type_invariant(self);
        }
        match self.position(key) {
            Some(i) => {
                proof {
                    self.lemma_unique(i as int, key@);
                }
                true
            },
            None => false,
        }
    }

    /// The value under `key`, if it has one.
    pub fn get(&self, key: &str) -> (r: Option<&V>)
        ensures
            match r {
                Some(v) => self@.contains_key(key@) && *v == self@[key@],
                None => !self@.contains_key(key@),
            },
    {
        proof {
            use_type_invariant(self);
        }
        match self.position(key) {
            Some(i) => {
                proof {
                    self.lemma_unique(i as int, key@);
                }
                Some(&self.entries[i].1)
            },
            None => None,
        }
    }

    /// Puts `value` under `key`, in place of the value that was there.
    pub fn insert(&mut self, key: &str, value: V)
        ensures
            final(self)@ == old(self)@.insert(key@, value),
            old(self)@.contains_key(key@) ==> final(self).keys() == old(self).keys()
                && final(self).values() == old(self).values().update(
                old(self).keys().index_of(key@),
                value,
            ),
            !old(self)@.contains_key(key@) ==> final(self).keys() == old(self).keys().push(key@)
                && final(self).values() == old(self).values().push(value),
    {
        proof {
            use_type_invariant(&*self);
        }
        let ghost before = *self;
        let name = String::from_str(key);
        let found = self.position(key);
        let mut entries: Vec<(String, V)> = Vec::new();
        std::mem::swap(&mut self.entries, &mut entries);
        match found {
            Some(i) => {
                proof {
                    before.lemma_unique(i as int, key@);
                }
                entries.set(i, (name, value));
            },
            None => {
                entries.push((name, value));
            },
        }
        proof {
            let after = Table { entries };
            assert forall|a: int, b: int|
                0 <= a < after.entries@.len() && 0 <= b < after.entries@.len()
                    && #[trigger] after.entries@[a].0@ == #[trigger] after.entries@[b].0@ implies a == b by {
                let ka = after.entries@[a].0@;
                if a < before.entries@.len() && ka != key@ {
                    assert(before.entries@[a].0@ == ka);
                }
                if b < before.entries@.len() && ka != key@ {
                    assert(before.entries@[b].0@ == ka);
                }
                if ka == key@ {
                    if a < before.entries@.len() {
                        assert(before.at(a, key@));
                    }
                    if b < before.entries@.len() {
                        assert(before.at(b, key@));
                    }
                }
            }
            assert forall|k: Seq<char>| #[trigger] after@.contains_key(k) <==> (k == key@ || before@.contains_key(k)) by {
                if after@.contains_key(k) {
                    let j = choose|j: int| after.at(j, k);
                    if k != key@ {
                        assert(before.at(j, k));
                    }
                } else if k == key@ {
                    if before@.contains_key(k) {
                        let j = choose|j: int| before.at(j, k);
                        assert(after.at(j, k));
                    } else {
                        assert(after.at(before.entries@.len() as int, k));
                    }
                } else if before@.contains_key(k) {
                    let j = choose|j: int| before.at(j, k);
                    assert(after.at(j, k));
                }
            }
            assert forall|k: Seq<char>| #[trigger] after@.contains_key(k) implies after@[k] == before@.insert(key@, value)[k] by {
                let j = choose|j: int| after.at(j, k);
                after.lemma_unique(j, k);
                if k != key@ {
                    before.lemma_unique(j, k);
                } else if before@.contains_key(k) {
                    let i = choose|i: int| before.at(i, k);
                    after.lemma_unique(i, k);
                } else {
                    after.lemma_unique(before.entries@.len() as int, k);
                }
            }
            before.lemma_entries();
            match found {
                Some(i) => {
                    let k = before.keys().index_of(key@);
                    assert(after.values() =~= before.values().update(k, value));
                },
                None => {
                    assert(!before@.contains_key(key@));
                },
            }
        }
        self.entries = entries;
    }
}

impl<V: Clone> Clone for Table<V> {
    /// A table of its own with the same names in the same order, each
    /// with a clone of its value.
    fn clone(&self) -> (r: Self)
        ensures
            r.keys() == self.keys(),
            r.values().len() == self.values().len(),
            forall|i: int| 0 <= i < self.values().len() ==> cloned(self.values()[i], #[trigger] r.values()[i]),
    {
        proof {
            use_type_invariant(self);
        }
        let mut entries: Vec<(String, V)> = Vec::new();
        let mut i: usize = 0;
        while i < self.entries.len()
            invariant
                i <= self.entries.len(),
                entries@.len() == i,
                forall|j: int| 0 <= j < i ==> (#[trigger] entries@[j]).0@ == self.entries@[j].0@,
                forall|j: int| 0 <= j < i ==> cloned(self.entries@[j].1, (#[trigger] entries@[j]).1),
            decreases self.entries.len() - i,
        {
            let name = self.entries[i].0.clone();
            let value = self.entries[i].1.clone();
            entries.push((name, value));
            i += 1;
        }
        let r = Table { entries };
        assert(r.keys() =~= self.keys());
        r
    }
}

impl<V> Default for Table<V> {
    fn default() -> (t: Table<V>)
        ensures
            t@ == Map::<Seq<char>, V>::empty(),
            t.keys() == Seq::<Seq<char>>::empty(),
            t.values() == Seq::<V>::empty(),
    {
        Table::new()
    }
}

impl<V> View for Table<V> {
    type V = Map<Seq<char>, V>;

    closed spec fn view(&self) -> Map<Seq<char>, V> {
        Map::new(
            |k: Seq<char>| exists|i: int| self.at(i, k),
            |k: Seq<char>| self.entries@[choose|i: int| self.at(i, k)].1,
        )
    }
}

} // verus!
