//! The prototype demonstration: pre-configured warriors are copied rather
//! than constructed, and the copy operation itself decides what a copy
//! looks like.

use vstd::prelude::*;

verus! {

pub struct Warrior {
    pub name: String,
    pub force: u32,
}

impl Clone for Warrior {
    /// A cloned warrior keeps the prototype's name but always starts at
    /// force 90, whatever the prototype had.
    fn clone(&self) -> (c: Warrior)
        ensures
            c.name@ == self.name@,
            c.force == 90,
    {
        Warrior { name: self.name.clone(), force: 90 }
    }
}

} // verus!
