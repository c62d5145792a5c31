//! The guard of once-only operations: a set of keys that only grows.

use std::collections::HashMap;
use vstd::prelude::*;

verus! {

/// A persisted set of keys on which a once-only operation has been carried
/// out. A key is marked once and stays marked: nothing removes it. The view
/// of a guard is the set of its marked keys.
#[derive(Debug, PartialEq, Eq)]
pub struct DedupGuard {
    marked: HashMap<u64, bool>,
}

impl View for DedupGuard {
    type V = Set<u64>;

    closed spec fn view(&self) -> Set<u64> {
        self.marked@.dom()
    }
}

impl DedupGuard {
    /// A guard with no key marked.
    pub fn new() -> (guard: DedupGuard)
        ensures
            guard@ == Set::<u64>::empty(),
    {
        let guard = DedupGuard { marked: HashMap::new() };
        assert(guard.marked@.dom() =~= Set::<u64>::empty());
        guard
    }

    /// Whether `key` is marked.
    pub fn is_marked(&self, key: u64) -> (marked: bool)
        ensures
            marked == self@.contains(key),
    {
        self.marked.contains_key(&key)
    }

    /// Marks `key`. Every key that was marked stays marked.
    pub fn mark(&mut self, key: u64)
        ensures
            final(self)@ == old(self)@.insert(key),
    {
        self.marked.insert(key, true);
        assert(self.marked@.dom() =~= old(self).marked@.dom().insert(key));
    }

    /// A copy of this guard.
    pub fn snapshot(&self) -> (copy: DedupGuard)
        ensures
            copy@ == self@,
    {
        DedupGuard { marked: self.marked.clone() }
    }
}

} // verus!
