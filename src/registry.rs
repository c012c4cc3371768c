//! The registry of allocated child names.
use vstd::prelude::*;

verus! {

/// Why an insertion into the registry was refused.
#[derive(Debug, Clone, Copy, PartialEq, Eq, Structural)]
pub enum RegistryError {
    /// The name is in the registry already.
    NameAlreadyAllocated,
}

/// The set of child names allocated so far. It only grows: names are never
/// removed. Its view lists the names in the order they were allocated.
pub struct Registry {
    names: Vec<String>,
}

impl View for Registry {
    type V = Seq<Seq<char>>;

    closed spec fn view(&self) -> Seq<Seq<char>> {
        self.names@.map_values(|s: String| s@)
    }
}

impl Registry {
    /// Every name stands in the registry at most once.
    pub open spec fn wf(&self) -> bool {
        self@.no_duplicates()
    }

    /// Whether `name` has been allocated.
    pub open spec fn has(&self, name: Seq<char>) -> bool {
        self@.contains(name)
    }

    /// An empty registry.
    pub fn new() -> (r: Registry)
        ensures
            r@ == Seq::<Seq<char>>::empty(),
            r.wf(),
    {
        Registry { names: Vec::new() }
    }

    /// The allocated names, in order of allocation.
    pub fn names(&self) -> (r: Vec<String>)
        ensures
            r@.map_values(|s: String| s@) == self@,
    {
        let mut r: Vec<String> = Vec::new();
        let mut i: usize = 0;
        while i < self.names.len()
            invariant
                i <= self.names@.len(),
                self@ == self.names@.map_values(|s: String| s@),
                r@.len() == i,
                r@.map_values(|s: String| s@) == self@.take(i as int),
            decreases self.names@.len() - i,
        {
            let c = self.names[i].clone();
            assert(c@ == self@[i as int]);
            let ghost before = r@;
            r.push(c);
            proof {
                assert forall|k: int| 0 <= k < i implies r@[k]@ == self@[k] by {
                    assert(r@[k] == before[k]);
                    assert(before.map_values(|s: String| s@)[k] == before[k]@);
                    assert(self@.take(i as int)[k] == self@[k]);
                }
            }
            i = i + 1;
            assert(r@.map_values(|s: String| s@) =~= self@.take(i as int));
        }
        assert(self@.take(i as int) =~= self@);
        r
    }

    /// A registry of `names`, allocated in that order, or `None` where a
    /// name stands twice.
    pub fn from_names(names: Vec<String>) -> (r: Option<Registry>)
        ensures
            names@.map_values(|s: String| s@).no_duplicates() <==> r is Some,
            r matches Some(g) ==> g.wf() && g@ == names@.map_values(|s: String| s@),
    {
        let ghost v = names@.map_values(|s: String| s@);
        let mut g = Registry::new();
        let mut i: usize = 0;
        while i < names.len()
            invariant
                i <= names@.len(),
                v == names@.map_values(|s: String| s@),
                g.wf(),
                g@ == v.take(i as int),
                v.take(i as int).no_duplicates(),
            decreases names@.len() - i,
        {
            let ghost pre = g@;
            match g.insert(names[i].clone()) {
                Ok(()) => {},
                Err(_) => {
                    proof {
                        let k = choose|k: int| 0 <= k < pre.len() && pre[k] == v[i as int];
                        assert(v[k] == v[i as int]);
                    }
                    return None;
                },
            }
            i = i + 1;
            assert(g@ =~= v.take(i as int));
        }
        assert(v.take(i as int) =~= v);
        Some(g)
    }

    /// The number of allocated names.
    pub fn len(&self) -> (r: usize)
        ensures
            r == self@.len(),
    {
        self.names.len()
    }

    /// Whether `name` has been allocated.
    pub fn contains(&self, name: &String) -> (r: bool)
        ensures
            r == self.has(name@),
    {
        let mut i: usize = 0;
        while i < self.names.len()
            invariant
                i <= self.names@.len(),
                self@ == self.names@.map_values(|s: String| s@),
                forall|j: int| 0 <= j < i ==> self@[j] != name@,
            decreases self.names@.len() - i,
        {
            if self.names[i] == *name {
                assert(self@[i as int] == name@);
                return true;
            }
            i = i + 1;
        }
        assert(!self@.contains(name@)) by {
            if self@.contains(name@) {
                let k = choose|k: int| 0 <= k < self@.len() && self@[k] == name@;
                assert(self@[k] != name@);
            }
        }
        false
    }

    /// Adds `name`, unless it is allocated already.
    pub fn insert(&mut self, name: String) -> (r: Result<(), RegistryError>)
        requires
            old(self).wf(),
        ensures
            final(self).wf(),
            old(self).has(name@) ==> r == Err::<(), RegistryError>(RegistryError::NameAlreadyAllocated)
                && final(self)@ == old(self)@,
            !old(self).has(name@) ==> r is Ok && final(self)@ == old(self)@.push(name@),
    {
        if self.contains(&name) {
            return Err(RegistryError::NameAlreadyAllocated);
        }
        let ghost n = name@;
        self.names.push(name);
        proof {
            assert(self@ =~= old(self)@.push(n));
            assert forall|i: int, j: int|
                0 <= i < self@.len() && 0 <= j < self@.len() && i != j implies self@[i] != self@[j] by {
                if i < old(self)@.len() && j < old(self)@.len() {
                    assert(old(self)@[i] != old(self)@[j]);
                } else if i < old(self)@.len() {
                    assert(old(self)@.contains(old(self)@[i]));
                } else if j < old(self)@.len() {
                    assert(old(self)@.contains(old(self)@[j]));
                }
            }
        }
        Ok(())
    }
}

} // verus!
