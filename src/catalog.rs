//! The tool catalog: a read-only registry from tool names to capabilities.

use vstd::prelude::*;

verus! {

/// The capabilities that a run may call, each under its tool name. A name is
/// matched exactly; where a name occurs twice, the first entry wins.
pub struct Catalog<C> {
    entries: Vec<(String, C)>,
}

impl<C> Catalog<C> {
    /// The names of the entries, in order.
    pub closed spec fn names(&self) -> Seq<Seq<char>> {
        self.entries@.map_values(|e: (String, C)| e.0@)
    }

    /// The capability of the entry at `i`.
    pub closed spec fn capability_at(&self, i: int) -> C {
        self.entries@[i].1
    }

    /// A catalog of `entries`, kept in the order given.
    pub fn new(entries: Vec<(String, C)>) -> (r: Self)
        ensures
            r.names() == entries@.map_values(|e: (String, C)| e.0@),
            forall|i: int| 0 <= i < entries@.len() ==> r.capability_at(i) == entries@[i].1,
    {
        Catalog { entries }
    }

    /// The number of entries.
    pub fn len(&self) -> (r: usize)
        ensures
            r == self.names().len(),
    {
        self.entries.len()
    }

    /// The index of the first entry named `name`, if any.
    pub fn position(&self, name: &String) -> (r: Option<usize>)
        ensures
            match r {
                Some(i) => i < self.names().len() && self.names()[i as int] == name@ && forall|
                    j: int,
                | 0 <= j < i ==> self.names()[j] != name@,
                None => !self.names().contains(name@),
            },
    {
        let mut i: usize = 0;
        while i < self.entries.len()
            invariant
                i <= self.entries@.len(),
                forall|j: int| 0 <= j < i ==> self.names()[j] != name@,
            decreases self.entries@.len() - i,
        {
            if self.entries[i].0.eq(name) {
                return Some(i);
            }
            i += 1;
        }
        assert(!self.names().contains(name@)) by {
            if self.names().contains(name@) {
                let j = choose|j: int| 0 <= j < self.names().len() && self.names()[j] == name@;
                assert(self.names()[j] != name@);
            }
        }
        None
    }

    /// The capability registered under `name`, if any.
    pub fn lookup(&self, name: &String) -> (r: Option<&C>)
        ensures
            r is Some <==> self.names().contains(name@),
            r matches Some(c) ==> exists|i: int|
                0 <= i < self.names().len() && self.names()[i] == name@ && *c
                    == self.capability_at(i),
    {
        match self.position(name) {
            Some(i) => {
                let c = &self.entries[i].1;
                assert(*c == self.capability_at(i as int));
                Some(c)
            },
            None => None,
        }
    }

    /// The capability of the entry at `i`.
    pub fn capability(&self, i: usize) -> (r: &C)
        requires
            i < self.names().len(),
        ensures
            *r == self.capability_at(i as int),
    {
        &self.entries[i].1
    }
}

} // verus!
