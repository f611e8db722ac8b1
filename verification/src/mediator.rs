//! The mediator demonstration: users talk to each other only through a
//! mediator that keeps non-owning handles to every registered colleague.
//!
//! The mediator routes an event by its kind — a `CreateUser` event goes to
//! the team leads only, a `ChangeUser` event to everyone — always in
//! registration order, and it prunes handles of colleagues that have been
//! destroyed exactly the way the observer's registry does.

use vstd::prelude::*;

use crate::arena::{Arena, Handle};
use crate::observer::{is_handle, occurrences};
use crate::sequences::{lemma_filter_all, lemma_filter_push};

verus! {

#[derive(Clone, Copy, PartialEq, Eq, Structural, Debug)]
pub enum UserKind {
    Developer,
    TeamLead,
}

#[derive(Clone, Copy, PartialEq, Eq, Structural, Debug)]
pub enum Event {
    CreateUser,
    ChangeUser,
}

/// Whether a colleague of kind `k` is a recipient of `event`: creation
/// events concern team leads only, change events concern everyone.
pub open spec fn receives(k: UserKind, event: Event) -> bool {
    match event {
        Event::CreateUser => k is TeamLead,
        Event::ChangeUser => true,
    }
}

/// A colleague: remembers every event routed to it.
pub struct User {
    pub kind: UserKind,
    pub inbox: Vec<Event>,
}

impl User {
    pub fn new(kind: UserKind) -> (u: User)
        ensures
            u.kind == kind,
            u.inbox@ =~= Seq::<Event>::empty(),
    {
        User { kind, inbox: Vec::new() }
    }

    /// Receive one event from the mediator.
    pub fn recv(&mut self, event: Event)
        ensures
            final(self).kind == old(self).kind,
            final(self).inbox@ == old(self).inbox@.push(event),
    {
        self.inbox.push(event);
    }

    pub fn kind(&self) -> (k: UserKind)
        ensures
            k == self.kind,
    {
        self.kind
    }

    /// A user sends an event into the group: it merely hands the event to
    /// the mediator, which decides who hears of it.  (The sender is itself
    /// part of the roster, so it is notified like anyone else.)
    pub fn send(
        mediator: &mut MediatorColleague,
        roster: &mut Arena<User>,
        event: Event,
    ) -> (delivered: Vec<Handle>)
        ensures
            final(mediator).colleagues() == live_colleagues(
                old(mediator).colleagues(),
                *old(roster),
            ),
            delivered@ == recipient_order(old(mediator).colleagues(), *old(roster), event),
            final(roster).spec_len() == old(roster).spec_len(),
            forall|h: Handle| final(roster).live(h) <==> old(roster).live(h),
            forall|h: Handle|
                old(roster).live(h) ==> final(roster).value(h).kind == old(roster).value(h).kind,
            forall|h: Handle|
                old(roster).live(h) ==> final(roster).value(h).inbox@ == old(roster).value(
                    h,
                ).inbox@ + sent_to(old(mediator).colleagues(), *old(roster), h, event),
    {
        mediator.send(roster, event)
    }
}

/// The LIVE test the mediator applies while pruning.
pub open spec fn colleague_live(roster: Arena<User>) -> spec_fn(Handle) -> bool {
    |h: Handle| roster.live(h)
}

/// Whether a handle resolves to a colleague that `event` is routed to.
pub open spec fn is_recipient(roster: Arena<User>, event: Event) -> spec_fn(Handle) -> bool {
    |h: Handle| roster.live(h) && receives(roster.value(h).kind, event)
}

/// The handles of `colleagues` that still resolve, in registration order.
pub open spec fn live_colleagues(colleagues: Seq<Handle>, roster: Arena<User>) -> Seq<Handle> {
    colleagues.filter(colleague_live(roster))
}

/// The handles one routing pass delivers to, in registration order.
pub open spec fn recipient_order(
    colleagues: Seq<Handle>,
    roster: Arena<User>,
    event: Event,
) -> Seq<Handle> {
    colleagues.filter(is_recipient(roster, event))
}

/// What one routing pass appends to the inbox of the live colleague behind
/// `h`: one copy of the event per registered occurrence if the event is
/// routed to its kind, nothing otherwise.
pub open spec fn sent_to(
    colleagues: Seq<Handle>,
    roster: Arena<User>,
    h: Handle,
    event: Event,
) -> Seq<Event> {
    if receives(roster.value(h).kind, event) {
        Seq::new(occurrences(colleagues, h), |i: int| event)
    } else {
        Seq::<Event>::empty()
    }
}

/// The mediator: owns a collection of colleague handles, never a colleague
/// itself.
pub struct MediatorColleague {
    colleagues: Vec<Handle>,
}

impl MediatorColleague {
    /// The registered handles, in registration order.
    pub closed spec fn colleagues(&self) -> Seq<Handle> {
        self.colleagues@
    }

    pub fn new() -> (m: MediatorColleague)
        ensures
            m.colleagues() =~= Seq::<Handle>::empty(),
    {
        MediatorColleague { colleagues: Vec::new() }
    }

    /// Register a colleague; the mediator keeps only a non-owning handle.
    pub fn register(&mut self, h: Handle)
        ensures
            final(self).colleagues() == old(self).colleagues().push(h),
    {
        self.colleagues.push(h);
    }

    /// Number of handles currently registered (dead ones included until the
    /// next routing pass discovers them).
    pub fn count(&self) -> (n: usize)
        ensures
            n == self.colleagues().len(),
    {
        self.colleagues.len()
    }

    /// Route one event: walk the colleagues in registration order, deliver
    /// to every live one whose kind the event concerns, and — if any handle
    /// failed to resolve — prune the dead handles in one filtering pass.
    /// Returns the recipients in delivery order.
    pub fn send(&mut self, roster: &mut Arena<User>, event: Event) -> (delivered: Vec<Handle>)
        ensures
            final(self).colleagues() == live_colleagues(old(self).colleagues(), *old(roster)),
            delivered@ == recipient_order(old(self).colleagues(), *old(roster), event),
            final(roster).spec_len() == old(roster).spec_len(),
            forall|h: Handle| final(roster).live(h) <==> old(roster).live(h),
            forall|h: Handle|
                old(roster).live(h) ==> final(roster).value(h).kind == old(roster).value(h).kind,
            forall|h: Handle|
                old(roster).live(h) ==> final(roster).value(h).inbox@ == old(roster).value(
                    h,
                ).inbox@ + sent_to(old(self).colleagues(), *old(roster), h, event),
    {
        let ghost cols0 = self.colleagues@;
        let ghost roster0 = *roster;
        let mut delivered: Vec<Handle> = Vec::new();
        let mut need = false;
        let mut i: usize = 0;
        while i < self.colleagues.len()
            invariant
                i <= cols0.len(),
                self.colleagues@ == cols0,
                roster.spec_len() == roster0.spec_len(),
                forall|h: Handle| roster.live(h) <==> roster0.live(h),
                forall|h: Handle|
                    roster0.live(h) ==> roster.value(h).kind == roster0.value(h).kind,
                forall|h: Handle|
                    roster0.live(h) ==> roster.value(h).inbox@ == roster0.value(h).inbox@
                        + sent_to(cols0.take(i as int), roster0, h, event),
                delivered@ == recipient_order(cols0.take(i as int), roster0, event),
                need <==> exists|k: int| 0 <= k < i && !roster0.live(cols0[k]),
            decreases cols0.len() - i,
        {
            let h = self.colleagues[i];
            let ghost prefix = cols0.take(i as int);
            proof {
                assert(cols0.take(i + 1) =~= prefix.push(h));
                lemma_filter_push(prefix, h, is_recipient(roster0, event));
            }
            let ghost roster_at_slot = *roster;
            let mut updated: Option<User> = None;
            match roster.get(h) {
                Some(u) => {
                    proof {
                        assert(roster0.live(h));
                        assert(u.kind == roster0.value(h).kind);
                    }
                    if matches!(event, Event::ChangeUser) || matches!(u.kind, UserKind::TeamLead) {
                        proof {
                            assert(receives(roster0.value(h).kind, event));
                        }
                        let mut receiver = User { kind: u.kind, inbox: u.inbox.clone() };
                        proof {
                            assert(receiver.inbox@ =~= u.inbox@);
                        }
                        receiver.recv(event);
                        updated = Some(receiver);
                        delivered.push(h);
                    } else {
                        proof {
                            assert(!receives(roster0.value(h).kind, event));
                        }
                    }
                },
                None => {
                    need = true;
                },
            }
            if let Some(u) = updated {
                roster.set(h, u);
            }
            proof {
                assert forall|h2: Handle| roster0.live(h2) implies roster.value(h2).inbox@
                    == roster0.value(h2).inbox@ + sent_to(cols0.take(i + 1), roster0, h2, event) by {
                    lemma_filter_push(prefix, h, is_handle(h2));
                    if h2 == h && receives(roster0.value(h2).kind, event) {
                        assert(sent_to(prefix.push(h), roster0, h2, event) =~= sent_to(
                            prefix,
                            roster0,
                            h2,
                            event,
                        ).push(event));
                        assert(roster.value(h2).inbox@ == roster_at_slot.value(h2).inbox@.push(
                            event,
                        ));
                        assert(roster.value(h2).inbox@ =~= roster0.value(h2).inbox@ + sent_to(
                            prefix.push(h),
                            roster0,
                            h2,
                            event,
                        ));
                    } else {
                        assert(sent_to(prefix.push(h), roster0, h2, event) =~= sent_to(
                            prefix,
                            roster0,
                            h2,
                            event,
                        ));
                    }
                }
                if roster0.live(h) && receives(roster0.value(h).kind, event) {
                    assert(is_recipient(roster0, event)(h));
                    assert(recipient_order(prefix.push(h), roster0, event) == recipient_order(
                        prefix,
                        roster0,
                        event,
                    ).push(h));
                } else {
                    assert(!is_recipient(roster0, event)(h));
                    assert(recipient_order(prefix.push(h), roster0, event) == recipient_order(
                        prefix,
                        roster0,
                        event,
                    ));
                }
            }
            i = i + 1;
        }
        proof {
            assert(cols0.take(cols0.len() as int) =~= cols0);
        }
        if need {
            let mut kept: Vec<Handle> = Vec::new();
            let mut j: usize = 0;
            while j < self.colleagues.len()
                invariant
                    j <= cols0.len(),
                    self.colleagues@ == cols0,
                    forall|h: Handle| roster.live(h) <==> roster0.live(h),
                    kept@ == live_colleagues(cols0.take(j as int), roster0),
                decreases cols0.len() - j,
            {
                let h = self.colleagues[j];
                proof {
                    assert(cols0.take(j + 1) =~= cols0.take(j as int).push(h));
                    lemma_filter_push(cols0.take(j as int), h, colleague_live(roster0));
                }
                if roster.get(h).is_some() {
                    kept.push(h);
                }
                j = j + 1;
            }
            self.colleagues = kept;
        } else {
            proof {
                assert(live_colleagues(cols0, roster0) == cols0) by {
                    assert(forall|k: int|
                        0 <= k < cols0.len() ==> #[trigger] colleague_live(roster0)(cols0[k]));
                    lemma_filter_all(cols0, colleague_live(roster0));
                }
            }
        }
        delivered
    }
}

} // verus!
