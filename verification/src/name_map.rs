//! A small map keyed by name that remembers the order in which its names
//! first appeared.
//!
//! Tag payloads and decoded catalogs are keyed by string. The map keeps the
//! names and their values side by side; no name occurs twice, and a name
//! keeps the place of its first insertion.

use vstd::prelude::*;

verus! {

/// A map from names to values, in order of first insertion.
#[derive(Clone, Debug, PartialEq, Eq)]
pub struct NameMap<V> {
    names: Vec<String>,
    values: Vec<V>,
}

impl<V> View for NameMap<V> {
    type V = Map<Seq<char>, V>;

    /// The map from each name to its value.
    open spec fn view(&self) -> Map<Seq<char>, V> {
        Map::new(
            |k: Seq<char>| self.names().contains(k),
            |k: Seq<char>| self.values()[self.names().index_of(k)],
        )
    }
}

impl<V> NameMap<V> {
    /// The names, in order of first insertion.
    pub closed spec fn names(&self) -> Seq<Seq<char>> {
        self.names@.map_values(|s: String| s@)
    }

    /// The values, each at the place of its name.
    pub closed spec fn values(&self) -> Seq<V> {
        self.values@
    }

    /// Every name has one value and no name occurs twice.
    pub open spec fn wf(&self) -> bool {
        &&& self.names().len() == self.values().len()
        &&& self.names().no_duplicates()
    }

    /// In a well-formed map a name is found at the one place where it stands.
    pub proof fn lemma_index_of(&self, i: int)
        requires
            self.wf(),
            0 <= i < self.names().len(),
        ensures
            self.names().contains(self.names()[i]),
            self.names().index_of(self.names()[i]) == i,
            self@.contains_key(self.names()[i]),
            self@[self.names()[i]] == self.values()[i],
    {
        let k = self.names()[i];
        assert(self.names().contains(k));
        let j = self.names().index_of(k);
        assert(0 <= j < self.names().len() && self.names()[j] == k);
    }

    /// An empty map.
    pub fn new() -> (m: Self)
        ensures
            m.wf(),
            m.names() == Seq::<Seq<char>>::empty(),
            m.values() == Seq::<V>::empty(),
            m@ == Map::<Seq<char>, V>::empty(),
    {
        let m = NameMap { names: Vec::new(), values: Vec::new() };
        assert(m.names() =~= Seq::<Seq<char>>::empty());
        assert(m@ =~= Map::<Seq<char>, V>::empty());
        m
    }

    /// Number of names.
    pub fn len(&self) -> (n: usize)
        requires
            self.wf(),
        ensures
            n == self.names().len(),
            n == self.values().len(),
    {
        self.names.len()
    }

    /// The place of `name`, if the map holds it.
    pub fn find(&self, name: &str) -> (r: Option<usize>)
        requires
            self.wf(),
        ensures
            match r {
                Some(i) => i < self.names().len() && self.names()[i as int] == name@
                    && self.names().index_of(name@) == i,
                None => !self.names().contains(name@),
            },
            r is Some <==> self@.contains_key(name@),
    {
        let key = name.to_owned();
        let mut i: usize = 0;
        while i < self.names.len()
            invariant
                i <= self.names@.len(),
                key@ == name@,
                self.wf(),
                forall|j: int| 0 <= j < i ==> self.names()[j] != name@,
            decreases self.names@.len() - i,
        {
            if self.names[i] == key {
                proof {
                    self.lemma_index_of(i as int);
                }
                return Some(i);
            }
            i += 1;
        }
        None
    }

    /// The name and the value at place `i`, or `None` past the end.
    pub fn entry(&self, i: usize) -> (r: Option<(&String, &V)>)
        requires
            self.wf(),
        ensures
            match r {
                Some((name, value)) => i < self.names().len() && name@ == self.names()[i as int]
                    && *value == self.values()[i as int],
                None => i >= self.names().len(),
            },
    {
        if i < self.names.len() {
            Some((&self.names[i], &self.values[i]))
        } else {
            None
        }
    }

    /// The value of `name`, if the map holds it.
    pub fn get(&self, name: &str) -> (r: Option<&V>)
        requires
            self.wf(),
        ensures
            match r {
                Some(value) => self@.contains_key(name@) && *value == self@[name@],
                None => !self@.contains_key(name@),
            },
    {
        match self.find(name) {
            Some(i) => Some(&self.values[i]),
            None => None,
        }
    }

    /// Gives `name` the value `value`: a name that the map holds keeps its
    /// place and takes the new value, a new name goes to the end.
    pub fn insert(&mut self, name: String, value: V)
        requires
            old(self).wf(),
        ensures
            final(self).wf(),
            final(self)@ == old(self)@.insert(name@, value),
            old(self).names().contains(name@) ==> final(self).names() == old(self).names()
                && final(self).values() == old(self).values().update(
                old(self).names().index_of(name@),
                value,
            ),
            !old(self).names().contains(name@) ==> final(self).names() == old(self).names().push(
                name@,
            ) && final(self).values() == old(self).values().push(value),
    {
        match self.find(name.as_str()) {
            Some(i) => {
                let _ = self.replace(i, value);
            },
            None => {
                self.push_new(name, value);
            },
        }
    }

    /// Adds `name` with `value` unless the map holds the name already, and
    /// says whether it was added. A name that is held keeps its value.
    pub fn insert_if_absent(&mut self, name: String, value: V) -> (added: bool)
        requires
            old(self).wf(),
        ensures
            final(self).wf(),
            added == !old(self)@.contains_key(name@),
            added ==> final(self)@ == old(self)@.insert(name@, value) && final(self).names() == old(
                self,
            ).names().push(name@) && final(self).values() == old(self).values().push(value),
            !added ==> *final(self) == *old(self),
    {
        match self.find(name.as_str()) {
            Some(_) => false,
            None => {
                self.push_new(name, value);
                true
            },
        }
    }

    /// Adds a name that the map does not hold yet, at the end.
    pub(crate) fn push_new(&mut self, name: String, value: V)
        requires
            old(self).wf(),
            !old(self)@.contains_key(name@),
        ensures
            final(self).wf(),
            final(self)@ == old(self)@.insert(name@, value),
            final(self).names() == old(self).names().push(name@),
            final(self).values() == old(self).values().push(value),
    {
        let ghost before = *self;
        let ghost key = name@;
        self.names.push(name);
        self.values.push(value);
        proof {
            assert(self.names() =~= before.names().push(key));
            assert(!before.names().contains(key));
            assert forall|k: Seq<char>| #[trigger] self.names().contains(k) implies (k == key
                || before.names().contains(k)) by {
                let j = choose|j: int| 0 <= j < self.names().len() && self.names()[j] == k;
                if j < before.names().len() {
                    assert(before.names()[j] == k);
                }
            }
            assert forall|k: Seq<char>| before.names().contains(k) implies #[trigger] self.names().contains(k) by {
                let j = choose|j: int| 0 <= j < before.names().len() && before.names()[j] == k;
                assert(self.names()[j] == k);
            }
            assert(self.names()[before.names().len() as int] == key);
            assert forall|k: Seq<char>| #[trigger] self@.contains_key(k) implies self@[k]
                == before@.insert(key, value)[k] by {
                let j = self.names().index_of(k);
                self.lemma_index_of(j);
                if j < before.names().len() {
                    before.lemma_index_of(j);
                }
            }
            assert(self@ =~= before@.insert(key, value));
        }
    }

    /// Puts `value` at place `i` and hands back the value that stood there.
    pub(crate) fn replace(&mut self, i: usize, value: V) -> (previous: V)
        requires
            old(self).wf(),
            i < old(self).names().len(),
        ensures
            final(self).wf(),
            previous == old(self).values()[i as int],
            final(self).names() == old(self).names(),
            final(self).values() == old(self).values().update(i as int, value),
            final(self)@ == old(self)@.insert(old(self).names()[i as int], value),
    {
        let ghost before = *self;
        self.values.push(value);
        let previous = self.values.swap_remove(i);
        proof {
            assert(self.values() =~= before.values().update(i as int, value));
            self.lemma_index_of(i as int);
            assert forall|k: Seq<char>| #[trigger] self@.contains_key(k) implies self@[k]
                == before@.insert(before.names()[i as int], value)[k] by {
                let j = self.names().index_of(k);
                self.lemma_index_of(j);
                before.lemma_index_of(j);
            }
            assert(self@ =~= before@.insert(before.names()[i as int], value));
        }
        previous
    }
}

} // verus!
