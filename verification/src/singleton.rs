//! The singleton demonstration's shared dictionary.
//!
//! The dictionary itself is ordinary verified state: an integer-keyed map
//! with exact contracts.  Making one instance globally reachable (the
//! `get_instance` access point of the pattern) needs a `static`, which has
//! no place in the verified library; the surrounding program wraps one
//! `Dictionary` in its process-wide lock and hands out that single instance.

use std::collections::HashMap;

use vstd::prelude::*;

verus! {

broadcast use vstd::std_specs::hash::group_hash_axioms;

/// An integer-keyed dictionary, the state behind the pattern's single
/// global instance.
pub struct Dictionary {
    data: HashMap<i32, i32>,
}

impl View for Dictionary {
    type V = Map<i32, i32>;

    closed spec fn view(&self) -> Map<i32, i32> {
        self.data@
    }
}

impl Dictionary {
    pub fn new() -> (d: Dictionary)
        ensures
            d@ == Map::<i32, i32>::empty(),
    {
        Dictionary { data: HashMap::new() }
    }

    /// Bind `key` to `value`, replacing any earlier binding.
    pub fn insert(&mut self, key: i32, value: i32)
        ensures
            final(self)@ == old(self)@.insert(key, value),
    {
        self.data.insert(key, value);
    }

    /// Look a key up: `Some` exactly when the key is bound.
    pub fn get(&self, key: &i32) -> (r: Option<&i32>)
        ensures
            match r {
                Some(v) => self@.contains_key(*key) && *v == self@[*key],
                None => !self@.contains_key(*key),
            },
    {
        self.data.get(key)
    }

    /// Number of bindings.
    pub fn len(&self) -> (n: usize)
        ensures
            n == self@.dom().len(),
    {
        self.data.len()
    }
}

} // verus!
