//! Generation-counted storage for subscribers.
//!
//! A publisher must never own its subscribers: the rest of the program keeps
//! them in an [`Arena`] and hands the publisher plain [`Handle`]s.  A handle
//! is a non-owning reference; it resolves to a value only while the owner has
//! not removed that value, so staleness is always detectable.  Slots are
//! never reused and removal bumps the slot's generation, hence a handle that
//! has died can never come back to life.

use vstd::prelude::*;

verus! {

/// A non-owning reference to one slot of an [`Arena`].  Resolving it can
/// fail once the owner has dropped the value it points to; holding a handle
/// never keeps the value alive.
#[derive(Clone, Copy, PartialEq, Eq, Structural, Debug)]
pub struct Handle {
    pub index: usize,
    pub generation: u64,
}

struct Slot<T> {
    generation: u64,
    value: Option<T>,
}

/// Owning storage for values that publishers refer to only through
/// [`Handle`]s.  The arena plays the role of "the rest of the program":
/// whoever holds the arena decides when a subscriber dies, and no registry
/// of handles can extend a subscriber's lifetime.
pub struct Arena<T> {
    slots: Vec<Slot<T>>,
}

impl<T> Arena<T> {
    /// Number of slots ever created (live and dead).
    pub closed spec fn spec_len(&self) -> nat {
        self.slots@.len()
    }

    /// A handle is LIVE when it resolves: its slot exists, carries the same
    /// generation, and still holds a value.  Otherwise it is DEAD.
    pub closed spec fn live(&self, h: Handle) -> bool {
        &&& h.index < self.slots@.len()
        &&& self.slots@[h.index as int].generation == h.generation
        &&& self.slots@[h.index as int].value is Some
    }

    /// The value a live handle resolves to.
    pub closed spec fn value(&self, h: Handle) -> T
        recommends
            self.live(h),
    {
        self.slots@[h.index as int].value->0
    }

    /// An empty arena: every handle is dead.
    pub fn new() -> (a: Arena<T>)
        ensures
            a.spec_len() == 0,
            forall|h: Handle| !a.live(h),
    {
        Arena { slots: Vec::new() }
    }

    /// Store a value and return the one handle that resolves to it.  All
    /// previously issued handles keep their state and their referents.
    pub fn insert(&mut self, value: T) -> (h: Handle)
        ensures
            h.index == old(self).spec_len(),
            final(self).spec_len() == old(self).spec_len() + 1,
            final(self).live(h),
            final(self).value(h) == value,
            forall|h2: Handle|
                h2.index < old(self).spec_len() ==> (final(self).live(h2) <==> old(self).live(h2)),
            forall|h2: Handle|
                old(self).live(h2) ==> final(self).value(h2) == old(self).value(h2),
    {
        let index = self.slots.len();
        self.slots.push(Slot { generation: 0, value: Some(value) });
        Handle { index, generation: 0 }
    }

    /// The owner drops its value: the handle's referent is destroyed.  The
    /// handle (and every copy of it) is dead from here on, and stays dead,
    /// because the slot is never reused.  Every other handle is untouched,
    /// so nothing already delivered elsewhere is retracted.
    pub fn remove(&mut self, h: Handle) -> (r: Option<T>)
        ensures
            final(self).spec_len() == old(self).spec_len(),
            r is Some <==> old(self).live(h),
            old(self).live(h) ==> r->0 == old(self).value(h),
            !final(self).live(h),
            forall|h2: Handle| h2 != h ==> (final(self).live(h2) <==> old(self).live(h2)),
            forall|h2: Handle|
                h2 != h && old(self).live(h2) ==> final(self).value(h2) == old(self).value(h2),
    {
        if h.index < self.slots.len() {
            let alive = {
                let slot = &self.slots[h.index];
                slot.generation == h.generation && slot.value.is_some()
            };
            if alive {
                let old_slot = self.slots.remove(h.index);
                let new_generation = if old_slot.generation < u64::MAX {
                    old_slot.generation + 1
                } else {
                    old_slot.generation
                };
                self.slots.insert(h.index, Slot { generation: new_generation, value: None });
                assert(self.slots@ =~= old(self).slots@.update(h.index as int,
                    Slot { generation: new_generation, value: None }));
                assert(!self.live(h)) by {
                    if new_generation == h.generation {
                        assert(old_slot.generation == u64::MAX);
                    }
                }
                old_slot.value
            } else {
                None
            }
        } else {
            None
        }
    }

    /// Resolve a handle: `Some` exactly when it is live.
    pub fn get(&self, h: Handle) -> (r: Option<&T>)
        ensures
            r is Some <==> self.live(h),
            self.live(h) ==> r->0 == self.value(h),
    {
        if h.index < self.slots.len() {
            let slot = &self.slots[h.index];
            if slot.generation == h.generation {
                slot.value.as_ref()
            } else {
                None
            }
        } else {
            None
        }
    }

    /// Replace the value a live handle resolves to, without changing any
    /// handle's liveness.  Returns whether the handle was live.
    pub fn set(&mut self, h: Handle, value: T) -> (r: bool)
        ensures
            r == old(self).live(h),
            final(self).spec_len() == old(self).spec_len(),
            forall|h2: Handle| final(self).live(h2) <==> old(self).live(h2),
            old(self).live(h) ==> final(self).value(h) == value,
            forall|h2: Handle|
                h2 != h && old(self).live(h2) ==> final(self).value(h2) == old(self).value(h2),
    {
        if h.index < self.slots.len() {
            let alive = {
                let slot = &self.slots[h.index];
                slot.generation == h.generation && slot.value.is_some()
            };
            if alive {
                self.slots.remove(h.index);
                self.slots.insert(h.index, Slot { generation: h.generation, value: Some(value) });
                assert(self.slots@ =~= old(self).slots@.update(h.index as int,
                    Slot { generation: h.generation, value: Some(value) }));
                true
            } else {
                false
            }
        } else {
            false
        }
    }

    /// Number of slots, live and dead together.
    pub fn len(&self) -> (n: usize)
        ensures
            n == self.spec_len(),
    {
        self.slots.len()
    }
}

} // verus!
