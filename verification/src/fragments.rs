//! The set of fragment names that a class implements.

use vstd::prelude::*;
use crate::text::str_eq;

verus! {

/// A set of names. No name is held twice.
#[derive(Debug)]
pub struct FragmentSet {
    names: Vec<String>,
}

impl View for FragmentSet {
    type V = Set<Seq<char>>;

    closed spec fn view(&self) -> Set<Seq<char>> {
        self.names.deep_view().to_set()
    }
}

impl FragmentSet {
    #[verifier::type_invariant]
    spec fn no_name_twice(&self) -> bool {
        self.names.deep_view().no_duplicates()
    }

    /// The empty set.
    pub fn new() -> (set: FragmentSet)
        ensures
            set@ == Set::<Seq<char>>::empty(),
    {
        let set = FragmentSet { names: Vec::new() };
        assert(set.names.deep_view().to_set() =~= Set::<Seq<char>>::empty());
        set
    }

    /// Where `name` is held, if it is.
    fn position(&self, name: &str) -> (at: Option<usize>)
        ensures
            match at {
                Some(i) => i < self.names.len() && self.names[i as int]@ == name@,
                None => !self.names.deep_view().contains(name@),
            },
    {
        let mut i: usize = 0;
        while i < self.names.len()
            invariant
                i <= self.names.len(),
                forall|j: int| 0 <= j < i ==> self.names[j]@ != name@,
            decreases self.names.len() - i,
        {
            if str_eq(self.names[i].as_str(), name) {
                return Some(i);
            }
            i += 1;
        }
        None
    }

    /// Whether the set holds `name`.
    pub fn contains(&self, name: &str) -> (present: bool)
        ensures
            present == self@.contains(name@),
    {
        match self.position(name) {
            Some(i) => {
                assert(self.names.deep_view()[i as int] == name@);
                true
            },
            None => false,
        }
    }

    /// Whether the set holds no name.
    pub fn is_empty(&self) -> (empty: bool)
        ensures
            empty == (self@ == Set::<Seq<char>>::empty()),
    {
        if self.names.len() == 0 {
            assert(self.names.deep_view().to_set() =~= Set::<Seq<char>>::empty());
            true
        } else {
            assert(self.names.deep_view()[0] == self.names[0]@);
            assert(self.names.deep_view().to_set().contains(self.names[0]@));
            false
        }
    }

    /// Adds `name`. Returns whether the set did not hold it before.
    pub fn insert(&mut self, name: String) -> (fresh: bool)
        ensures
            final(self)@ == old(self)@.insert(name@),
            fresh == !old(self)@.contains(name@),
    {
        proof {
            use_type_invariant(&*self);
        }
        match self.position(name.as_str()) {
            Some(i) => {
                assert(self.names.deep_view()[i as int] == name@);
                assert(self@.insert(name@) =~= self@);
                false
            },
            None => {
                let ghost before = self.names.deep_view();
                let mut held = FragmentSet::new();
                std::mem::swap(self, &mut held);
                let mut names = held.names;
                names.push(name);
                proof {
                    let after = names.deep_view();
                    assert(after == before.push(name@));
                    assert forall|n: Seq<char>| after.to_set().contains(n) == before.to_set().insert(
                        name@,
                    ).contains(n) by {
                        if before.contains(n) {
                            let j = choose|j: int| 0 <= j < before.len() && before[j] == n;
                            assert(after[j] == n);
                        }
                        if n == name@ {
                            assert(after[before.len() as int] == n);
                        }
                    }
                    assert(after.to_set() =~= before.to_set().insert(name@));
                    assert forall|j: int, k: int|
                        0 <= j < after.len() && 0 <= k < after.len() && j != k implies after[j]
                        != after[k] by {
                        if j < before.len() {
                            assert(before[j] == after[j]);
                        }
                        if k < before.len() {
                            assert(before[k] == after[k]);
                        }
                    }
                }
                *self = FragmentSet { names };
                true
            },
        }
    }

    /// Takes `name` out. Returns whether the set held it.
    pub fn remove(&mut self, name: &str) -> (present: bool)
        ensures
            final(self)@ == old(self)@.remove(name@),
            present == old(self)@.contains(name@),
    {
        proof {
            use_type_invariant(&*self);
        }
        match self.position(name) {
            Some(i) => {
                let ghost before = self.names.deep_view();
                assert(before[i as int] == name@);
                let mut held = FragmentSet::new();
                std::mem::swap(self, &mut held);
                let mut names = held.names;
                names.remove(i);
                proof {
                    let after = names.deep_view();
                    assert(after == before.remove(i as int));
                    assert forall|n: Seq<char>| after.to_set().contains(n) == before.to_set().remove(
                        name@,
                    ).contains(n) by {
                        if after.contains(n) {
                            let j = choose|j: int| 0 <= j < after.len() && after[j] == n;
                            if j < i {
                                assert(before[j] == n);
                            } else {
                                assert(before[j + 1] == n);
                            }
                        }
                        if before.contains(n) && n != name@ {
                            let j = choose|j: int| 0 <= j < before.len() && before[j] == n;
                            if j < i {
                                assert(after[j] == n);
                            } else {
                                assert(after[j - 1] == n);
                            }
                        }
                    }
                    assert(after.to_set() =~= before.to_set().remove(name@));
                }
                *self = FragmentSet { names };
                true
            },
            None => {
                assert(self@.remove(name@) =~= self@);
                false
            },
        }
    }
}

} // verus!
