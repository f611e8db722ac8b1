//! The observer demonstration: a `Shop` publishes a message to every
//! registered `Person` that is still alive.
//!
//! The shop stores only non-owning [`Handle`]s; the persons themselves live
//! in an [`Arena`] owned by the caller.  A person may be destroyed by its
//! owner at any time without unsubscribing: the next `notify` pass simply
//! skips the dead handle and afterwards prunes every dead handle in a single
//! filtering pass.

use vstd::prelude::*;

use crate::arena::{Arena, Handle};
use crate::sequences::{lemma_filter_all, lemma_filter_empty, lemma_filter_push};

verus! {

/// A subscriber: remembers every message delivered to it.
pub struct Person {
    pub name: String,
    pub inbox: Vec<String>,
}

impl Person {
    pub fn new(name: &str) -> (p: Person)
        ensures
            p.name@ == name@,
            p.inbox@.len() == 0,
    {
        Person { name: name.to_owned(), inbox: Vec::new() }
    }

    /// The subscriber's update operation: receive one message.
    pub fn update(&mut self, msg: String)
        ensures
            final(self).name == old(self).name,
            final(self).inbox@ == old(self).inbox@.push(msg),
    {
        self.inbox.push(msg);
    }
}

/// The LIVE test a `notify` pass applies to each handle.
pub open spec fn is_live(people: Arena<Person>) -> spec_fn(Handle) -> bool {
    |h: Handle| people.live(h)
}

/// Identity of handles (a handle names one slot of one generation).
pub open spec fn is_handle(h: Handle) -> spec_fn(Handle) -> bool {
    |x: Handle| x == h
}

/// The handles of `subs` that resolve in `people`, in registration order.
pub open spec fn live_handles(subs: Seq<Handle>, people: Arena<Person>) -> Seq<Handle> {
    subs.filter(is_live(people))
}

/// The names that one `notify` pass over `subs` delivers to, in delivery
/// order: the live handles in insertion order, each resolved to its name.
pub open spec fn delivery_order(subs: Seq<Handle>, people: Arena<Person>) -> Seq<Seq<char>> {
    live_handles(subs, people).map_values(|h: Handle| people.value(h).name@)
}

/// How often `h` occurs in `subs` (duplicates are permitted on register).
pub open spec fn occurrences(subs: Seq<Handle>, h: Handle) -> nat {
    subs.filter(is_handle(h)).len()
}

/// What one `notify` pass with message `msg` appends to the inbox of the
/// subscriber behind `h`: one copy of the message per registered occurrence.
pub open spec fn deliveries_to(subs: Seq<Handle>, h: Handle, msg: Seq<char>) -> Seq<Seq<char>> {
    Seq::new(occurrences(subs, h), |i: int| msg)
}

/// How often `h` occurs among the elements of `subs` that are live in
/// `people` — the number of deliveries one pass makes to `h`.
pub open spec fn live_occurrences(subs: Seq<Handle>, people: Arena<Person>, h: Handle) -> nat {
    occurrences(live_handles(subs, people), h)
}

/// Occurrence counts add up over concatenation.
proof fn lemma_occurrences_add(a: Seq<Handle>, b: Seq<Handle>, h: Handle)
    ensures
        occurrences(a + b, h) == occurrences(a, h) + occurrences(b, h),
{
    Seq::filter_distributes_over_add(a, b, is_handle(h));
}

/// A handle occurs in a collection exactly when its occurrence count is
/// positive.
pub proof fn lemma_occurrences_contains(subs: Seq<Handle>, h: Handle)
    ensures
        occurrences(subs, h) > 0 <==> subs.contains(h),
{
    lemma_filter_empty(subs, is_handle(h));
    if subs.contains(h) {
        let k = choose|k: int| 0 <= k < subs.len() && subs[k] == h;
        assert(is_handle(h)(subs[k]));
    }
}

/// Weak-reference cleanup: a handle whose referent is gone is never part of
/// a delivery pass — it receives nothing, and the pruned collection a
/// `notify` call leaves behind does not contain it.  Together with the
/// `Arena` contracts (a dead handle stays dead) this means no later pass
/// can ever reach it either.
pub proof fn lemma_dead_handle_skipped(subs: Seq<Handle>, people: Arena<Person>, h: Handle)
    requires
        !people.live(h),
    ensures
        !live_handles(subs, people).contains(h),
        live_occurrences(subs, people, h) == 0,
{
    let f = live_handles(subs, people);
    assert forall|k: int| 0 <= k < f.len() implies f[k] != h by {
        subs.lemma_filter_pred(is_live(people), k);
    }
    lemma_occurrences_contains(f, h);
}

/// Duplicate tolerance: a subscriber registered twice receives the message
/// of one pass twice.
pub proof fn lemma_duplicate_delivery(
    subs: Seq<Handle>,
    people: Arena<Person>,
    h: Handle,
    msg: Seq<char>,
)
    requires
        people.live(h),
        occurrences(subs, h) == 2,
    ensures
        deliveries_to(subs, h, msg) =~= seq![msg, msg],
{
}

/// No retroactive un-delivery: whether a subscriber receives the message of
/// a pass is decided by the state the pass started from, so one that is
/// live when the pass begins is delivered to — whatever its owner does to
/// it afterwards.  (`Arena::remove` leaves every other slot untouched, so a
/// later destruction cannot take an inbox entry back.)
pub proof fn lemma_delivery_not_retracted(
    subs: Seq<Handle>,
    people: Arena<Person>,
    h: Handle,
    msg: Seq<char>,
)
    requires
        people.live(h),
        subs.contains(h),
    ensures
        live_handles(subs, people).contains(h),
        deliveries_to(subs, h, msg).len() > 0,
{
    let k = choose|k: int| 0 <= k < subs.len() && subs[k] == h;
    assert(is_live(people)(subs[k]));
    subs.lemma_filter_contains(is_live(people), k);
    lemma_occurrences_contains(subs, h);
}

/// Explicit unregistration is exact: removing a subscriber that was
/// registered exactly once leaves a collection that no longer contains it
/// (so no pass delivers to it again), and unregistering it a second time
/// finds nothing — a no-op.
pub proof fn lemma_unregister_exact(subs: Seq<Handle>, h: Handle)
    requires
        occurrences(subs, h) == 1,
    ensures
        subs.index_of_first(h) is Some,
        !subs.remove(subs.index_of_first(h)->0).contains(h),
        subs.remove(subs.index_of_first(h)->0).index_of_first(h) is None,
{
    lemma_occurrences_contains(subs, h);
    subs.index_of_first_ensures(h);
    let i = subs.index_of_first(h)->0;
    let rest = subs.remove(i);
    let front = subs.take(i);
    let back = subs.skip(i + 1);
    assert(subs =~= front + seq![h] + back);
    assert(rest =~= front + back);
    lemma_occurrences_add(front + seq![h], back, h);
    lemma_occurrences_add(front, seq![h], h);
    lemma_occurrences_add(front, back, h);
    assert(occurrences(seq![h], h) == 1) by {
        assert(seq![h] =~= Seq::<Handle>::empty().push(h));
        lemma_filter_push(Seq::<Handle>::empty(), h, is_handle(h));
        reveal(Seq::filter);
    }
    lemma_occurrences_contains(rest, h);
    rest.index_of_first_ensures(h);
    if rest.index_of_first(h) is Some {
        assert(rest.contains(h));
    }
}

/// The publisher: owns a collection of subscriber handles, never a
/// subscriber itself.
pub struct Shop {
    subscribers: Vec<Handle>,
}

impl Shop {
    /// The registered handles, in insertion order.
    pub closed spec fn subs(&self) -> Seq<Handle> {
        self.subscribers@
    }

    pub fn new() -> (s: Shop)
        ensures
            s.subs() =~= Seq::<Handle>::empty(),
    {
        Shop { subscribers: Vec::new() }
    }

    /// Register a subscriber.  Always succeeds; no identity check, so the
    /// same handle may be registered more than once.
    pub fn subscriber(&mut self, h: Handle)
        ensures
            final(self).subs() == old(self).subs().push(h),
    {
        self.subscribers.push(h);
    }

    /// Explicit identity-based removal (the strong-reference variant of the
    /// pattern): removes the first occurrence of `h`, comparing handle
    /// identity, and is a no-op when `h` is not registered.
    pub fn unsubscriber(&mut self, h: Handle)
        ensures
            match old(self).subs().index_of_first(h) {
                Some(i) => final(self).subs() == old(self).subs().remove(i),
                None => final(self).subs() == old(self).subs(),
            },
    {
        proof {
            self.subscribers@.index_of_first_ensures(h);
        }
        let mut idx: usize = 0;
        let mut found = false;
        while idx < self.subscribers.len() && !found
            invariant
                idx <= self.subscribers@.len(),
                forall|k: int| 0 <= k < idx ==> self.subscribers@[k] != h,
                found ==> idx < self.subscribers@.len() && self.subscribers@[idx as int] == h,
            decreases self.subscribers@.len() - idx + (if found { 0int } else { 1int }),
        {
            if self.subscribers[idx] == h {
                found = true;
            } else {
                idx = idx + 1;
            }
        }
        if found {
            self.subscribers.remove(idx);
        }
    }

    /// Number of handles currently registered (live and dead together: a
    /// dead handle is only discovered, and removed, by a `notify` pass).
    pub fn count(&self) -> (n: usize)
        ensures
            n == self.subs().len(),
    {
        self.subscribers.len()
    }

    /// Fan a message out to every live subscriber, in insertion order, then
    /// prune the handles that failed to resolve.
    ///
    /// Delivery is decided by the state of `people` on entry: a subscriber
    /// that is live when the pass begins receives the message, and nothing
    /// delivered is ever retracted.  Dead handles are skipped silently and
    /// removed at the end of the pass in one filtering step.  Returns the
    /// names of the receivers, in delivery order.
    pub fn notify(&mut self, people: &mut Arena<Person>, msg: &str) -> (delivered: Vec<String>)
        ensures
            // the collection keeps exactly the handles that still resolve,
            // in insertion order
            final(self).subs() == live_handles(old(self).subs(), *old(people)),
            // fan-out order: one delivery per live handle, in insertion order
            delivered.deep_view() == delivery_order(old(self).subs(), *old(people)),
            // no subscriber is created, destroyed or renamed by a pass
            final(people).spec_len() == old(people).spec_len(),
            forall|h: Handle| final(people).live(h) <==> old(people).live(h),
            forall|h: Handle|
                old(people).live(h) ==> final(people).value(h).name == old(people).value(h).name,
            // each live subscriber receives the message once per occurrence
            forall|h: Handle|
                old(people).live(h) ==> final(people).value(h).inbox.deep_view()
                    == old(people).value(h).inbox.deep_view()
                        + deliveries_to(old(self).subs(), h, msg@),
    {
        let ghost subs0 = self.subscribers@;
        let ghost people0 = *people;
        let mut delivered: Vec<String> = Vec::new();
        let mut need_cleanup = false;
        let mut i: usize = 0;
        while i < self.subscribers.len()
            invariant
                i <= subs0.len(),
                self.subscribers@ == subs0,
                people.spec_len() == people0.spec_len(),
                forall|h: Handle| people.live(h) <==> people0.live(h),
                forall|h: Handle|
                    people0.live(h) ==> people.value(h).name == people0.value(h).name,
                forall|h: Handle|
                    people0.live(h) ==> people.value(h).inbox.deep_view()
                        == people0.value(h).inbox.deep_view()
                            + deliveries_to(subs0.take(i as int), h, msg@),
                delivered.deep_view() == delivery_order(subs0.take(i as int), people0),
                need_cleanup <==> exists|k: int| 0 <= k < i && !people0.live(subs0[k]),
            decreases subs0.len() - i,
        {
            let h = self.subscribers[i];
            let ghost prefix = subs0.take(i as int);
            proof {
                assert(subs0.take(i + 1) =~= prefix.push(h));
                lemma_filter_push(prefix, h, is_live(people0));
            }
            let ghost people_at_slot = *people;
            let mut updated: Option<Person> = None;
            match people.get(h) {
                Some(p) => {
                    let mut receiver = Person { name: p.name.clone(), inbox: p.inbox.clone() };
                    proof {
                        assert(receiver.inbox@ =~= p.inbox@);
                    }
                    receiver.update(msg.to_owned());
                    proof {
                        assert(receiver.inbox.deep_view() =~= p.inbox.deep_view().push(msg@));
                    }
                    updated = Some(receiver);
                    delivered.push(p.name.clone());
                },
                None => {
                    need_cleanup = true;
                },
            }
            if let Some(p) = updated {
                people.set(h, p);
            }
            proof {
                assert forall|h2: Handle| people0.live(h2) implies people.value(
                    h2,
                ).inbox.deep_view() == people0.value(h2).inbox.deep_view() + deliveries_to(
                    subs0.take(i + 1),
                    h2,
                    msg@,
                ) by {
                    lemma_filter_push(prefix, h, is_handle(h2));
                    if h2 == h {
                        assert(deliveries_to(prefix.push(h), h2, msg@) =~= deliveries_to(
                            prefix,
                            h2,
                            msg@,
                        ).push(msg@));
                        assert(people.value(h2).inbox.deep_view() == people_at_slot.value(
                            h2,
                        ).inbox.deep_view().push(msg@));
                        assert(people.value(h2).inbox.deep_view() =~= people0.value(
                            h2,
                        ).inbox.deep_view() + deliveries_to(prefix.push(h), h2, msg@));
                    } else {
                        assert(deliveries_to(prefix.push(h), h2, msg@) =~= deliveries_to(
                            prefix,
                            h2,
                            msg@,
                        ));
                    }
                }
                if people0.live(h) {
                    assert(delivered.deep_view() =~= delivery_order(prefix, people0).push(
                        people0.value(h).name@,
                    ));
                    assert(delivery_order(prefix.push(h), people0) =~= delivery_order(
                        prefix,
                        people0,
                    ).push(people0.value(h).name@));
                } else {
                    assert(delivery_order(prefix.push(h), people0) =~= delivery_order(
                        prefix,
                        people0,
                    ));
                }
            }
            i = i + 1;
        }
        proof {
            assert(subs0.take(subs0.len() as int) =~= subs0);
        }
        if need_cleanup {
            // second resolve: keep, in one pass, exactly the handles that
            // still resolve
            let mut kept: Vec<Handle> = Vec::new();
            let mut j: usize = 0;
            while j < self.subscribers.len()
                invariant
                    j <= subs0.len(),
                    self.subscribers@ == subs0,
                    forall|h: Handle| people.live(h) <==> people0.live(h),
                    kept@ == live_handles(subs0.take(j as int), people0),
                decreases subs0.len() - j,
            {
                let h = self.subscribers[j];
                proof {
                    assert(subs0.take(j + 1) =~= subs0.take(j as int).push(h));
                    lemma_filter_push(subs0.take(j as int), h, is_live(people0));
                }
                if people.get(h).is_some() {
                    kept.push(h);
                }
                j = j + 1;
            }
            self.subscribers = kept;
        } else {
            proof {
                assert(forall|k: int| 0 <= k < subs0.len() ==> people0.live(subs0[k]));
                assert(live_handles(subs0, people0) == subs0) by {
                    assert(forall|k: int|
                        0 <= k < subs0.len() ==> #[trigger] is_live(people0)(subs0[k]));
                    lemma_filter_all(subs0, is_live(people0));
                }
            }
        }
        delivered
    }
}

} // verus!
