//! The actor system registry.
//!
//! One registry value models everything the handles of a process share:
//! each spawned actor's mailbox together with the count of strong handles
//! owning its resource, and the status of every call-with-result made so
//! far. Spawning, cloning and dropping handles, upgrading weak handles,
//! and every send go through it; an asynchronous host performs the work
//! the registry decides on.
//!
//! Sends through a detached handle, a handle whose actor is gone, or a
//! weak handle whose resource is no longer owned are silent no-ops: they
//! leave the registry exactly as it was, and never fail.

use vstd::prelude::*;

verus! {

use crate::actor::Produces;
use crate::addr::{Addr, AddrCell, WeakAddr};
use crate::mailbox::{Decision, Mailbox, MailboxView, Phase, Step};
use crate::utils::Termination;

/// One spawned actor: its mailbox and the ownership of its resource.
pub struct ActorEntry {
    /// The scheduling state machine of the actor's task.
    pub mailbox: Mailbox,
    /// How many strong handles share ownership of the mailbox resource.
    pub strong: u64,
    /// The tag of the concrete actor type this actor was spawned with.
    pub concrete: u64,
}

/// The status of one call-with-result.
#[derive(Debug, Clone, Copy, PartialEq, Eq, Structural)]
pub enum CallStatus {
    /// The racing item is with the actor; the result may still arrive.
    Pending,
    /// The result was sent to the caller.
    Delivered,
    /// The producing side disappeared without sending.
    Cancelled,
}

/// One call-with-result: its status, and the actor the racing item was
/// handed to, if any.
#[derive(Debug, Clone, Copy)]
pub struct CallCell {
    /// Where the call stands.
    pub status: CallStatus,
    /// The actor executing the call, or `None` if it never reached one.
    pub actor: Option<u64>,
}

/// A call-with-result is consistent with the actors it refers to: it
/// names a spawned actor and is no longer pending once that actor's
/// mailbox has terminated; a call that never reached an actor is
/// cancelled from the start.
pub open spec fn call_ok(actors: Seq<ActorEntry>, call: CallCell) -> bool {
    match call.actor {
        Some(a) => (a as int) < actors.len() && (actors[a as int].mailbox@.terminated()
            ==> call.status != CallStatus::Pending),
        None => call.status == CallStatus::Cancelled,
    }
}

/// What cancelling every pending call of one actor does to a call cell.
pub open spec fn cancel_one(call: CallCell, id: u64) -> CallCell {
    if call.actor == Some(id) && call.status == CallStatus::Pending {
        CallCell { status: CallStatus::Cancelled, ..call }
    } else {
        call
    }
}

/// The registry of all spawned actors and calls.
pub struct System {
    /// Every actor ever spawned, indexed by allocation identity.
    pub actors: Vec<ActorEntry>,
    /// Every call-with-result ever made, indexed by call identity.
    pub calls: Vec<CallCell>,
}

impl System {
    /// This allocation identity names a spawned actor.
    pub open spec fn has_actor(self, id: u64) -> bool {
        (id as int) < self.actors@.len()
    }

    /// The mailbox state of this actor.
    pub open spec fn mailbox_of(self, id: u64) -> MailboxView {
        self.actors@[id as int].mailbox@
    }

    /// How many strong handles own this actor's resource.
    pub open spec fn strong_of(self, id: u64) -> u64 {
        self.actors@[id as int].strong
    }

    /// The concrete type tag this actor was spawned with.
    pub open spec fn concrete_of(self, id: u64) -> u64 {
        self.actors@[id as int].concrete
    }

    /// The actor's resource is still owned by at least one strong handle,
    /// so a weak handle to it can be upgraded.
    pub open spec fn owned(self, id: u64) -> bool {
        self.has_actor(id) && self.strong_of(id) > 0
    }

    /// This call identity names a call made so far.
    pub open spec fn has_call(self, c: u64) -> bool {
        (c as int) < self.calls@.len()
    }

    /// The status of this call.
    pub open spec fn call_status(self, c: u64) -> CallStatus {
        self.calls@[c as int].status
    }

    /// The actor this call's racing item was handed to, if any.
    pub open spec fn call_actor(self, c: u64) -> Option<u64> {
        self.calls@[c as int].actor
    }

    /// Every reachable registry satisfies this. Each mailbox satisfies
    /// its own invariant; an actor whose resource nobody owns any more
    /// has its exclusive channel closed, unless its task already exited
    /// by itself; and every call is consistent with the actor it refers
    /// to.
    pub open spec fn wf(self) -> bool {
        &&& (forall|i: int|
            0 <= i < self.actors@.len() ==> (#[trigger] self.actors@[i]).mailbox@.inv())
        &&& (forall|i: int|
            0 <= i < self.actors@.len() ==> ((#[trigger] self.actors@[i]).strong == 0
                ==> self.actors@[i].mailbox@.closed || self.actors@[i].mailbox@.terminated()))
        &&& (forall|c: int|
            0 <= c < self.calls@.len() ==> call_ok(self.actors@, #[trigger] self.calls@[c]))
    }

    /// The strong handle upgrading a weak handle yields: the same
    /// resource under the same facet while the resource is still owned,
    /// and the detached handle otherwise.
    pub open spec fn upgrade_result(self, w: WeakAddr) -> Addr {
        match w.inner {
            Some(cell) => if self.owned(cell.actor) {
                Addr { inner: w.inner, facet: w.facet }
            } else {
                Addr::spec_detached()
            },
            None => Addr::spec_detached(),
        }
    }

    /// An empty registry: no actors, no calls.
    pub fn new() -> (s: System)
        ensures
            s.wf(),
            s.actors@.len() == 0,
            s.calls@.len() == 0,
    {
        System { actors: Vec::new(), calls: Vec::new() }
    }

    /// Spawn a new actor with the given concrete type tag. Its mailbox
    /// starts with `started_item` as the very first exclusive item, so
    /// the startup hook runs before any externally submitted item, and
    /// the returned handle is the one strong handle owning the resource.
    pub fn spawn(&mut self, concrete: u64, started_item: u64) -> (a: Addr)
        requires
            old(self).wf(),
        ensures
            final(self).wf(),
            final(self).actors@.len() == old(self).actors@.len() + 1,
            final(self).calls@ == old(self).calls@,
            forall|i: int|
                0 <= i < old(self).actors@.len() ==> final(self).actors@[i] == old(self).actors@[i],
            a.inner == Some(
                (AddrCell { actor: old(self).actors@.len() as u64, concrete: concrete }),
            ),
            a.facet == concrete,
            !a.is_detached(),
            final(self).strong_of(old(self).actors@.len() as u64) == 1,
            final(self).concrete_of(old(self).actors@.len() as u64) == concrete,
            final(self).mailbox_of(old(self).actors@.len() as u64) == MailboxView::init().step(
                Step::EnqueueExclusive(started_item),
            ),
            final(self).mailbox_of(old(self).actors@.len() as u64).enqueued == seq![started_item],
    {
        let id = self.actors.len() as u64;
        let mut mailbox = Mailbox::new();
        mailbox.enqueue_exclusive(started_item);
        self.actors.push(ActorEntry { mailbox, strong: 1, concrete });
        let cell = AddrCell { actor: id, concrete };
        proof {
            assert(self.mailbox_of(id).enqueued =~= seq![started_item]);
            assert forall|c: int| 0 <= c < self.calls@.len() implies call_ok(
                self.actors@,
                #[trigger] self.calls@[c],
            ) by {
                assert(call_ok(old(self).actors@, self.calls@[c]));
            }
        }
        Addr { inner: Some(cell), facet: concrete }
    }

    /// Clone a strong handle: one more strong handle owns the resource.
    /// Cloning a detached handle, or one whose resource is gone, yields a
    /// detached handle and changes nothing.
    pub fn retain(&mut self, a: &Addr) -> (b: Addr)
        requires
            old(self).wf(),
            match a.inner {
                Some(cell) => old(self).owned(cell.actor) ==> old(self).strong_of(cell.actor)
                    < u64::MAX,
                None => true,
            },
        ensures
            final(self).wf(),
            final(self).calls@ == old(self).calls@,
            final(self).actors@.len() == old(self).actors@.len(),
            a.is_detached() ==> final(self).actors@ == old(self).actors@ && b
                == Addr::spec_detached(),
            a.inner matches Some(cell) ==> (!old(self).owned(cell.actor) ==> final(self).actors@
                == old(self).actors@ && b == Addr::spec_detached()),
            a.inner matches Some(cell) ==> (old(self).owned(cell.actor) ==> b == *a && final(self).strong_of(cell.actor) == old(self).strong_of(cell.actor) + 1 && final(self).mailbox_of(cell.actor) == old(self).mailbox_of(cell.actor) && final(self).concrete_of(cell.actor) == old(self).concrete_of(cell.actor) && (forall|i: int|
                0 <= i < old(self).actors@.len() && i != cell.actor as int ==> final(self).actors@[i] == old(self).actors@[i])),
    {
        match a.inner {
            None => Addr::detached(),
            Some(cell) => {
                if cell.actor < self.actors.len() as u64 {
                    let idx = cell.actor as usize;
                    let ent = &mut self.actors[idx];
                    if ent.strong > 0 {
                        ent.strong = ent.strong + 1;
                        proof {
                            assert forall|c: int| 0 <= c < self.calls@.len() implies call_ok(
                                self.actors@,
                                #[trigger] self.calls@[c],
                            ) by {
                                assert(call_ok(old(self).actors@, self.calls@[c]));
                            }
                        }
                        Addr { inner: a.inner, facet: a.facet }
                    } else {
                        proof {
                            assert(self.actors@ =~= old(self).actors@);
                        }
                        Addr::detached()
                    }
                } else {
                    Addr::detached()
                }
            },
        }
    }

    /// Drop a strong handle: one fewer strong handle owns the resource.
    /// When the last one goes, the exclusive channel closes. Dropping a
    /// detached handle, or one whose resource is gone, changes nothing.
    pub fn release(&mut self, a: Addr)
        requires
            old(self).wf(),
        ensures
            final(self).wf(),
            final(self).calls@ == old(self).calls@,
            final(self).actors@.len() == old(self).actors@.len(),
            a.is_detached() ==> final(self).actors@ == old(self).actors@,
            a.inner matches Some(cell) ==> (!old(self).owned(cell.actor) ==> final(self).actors@
                == old(self).actors@),
            a.inner matches Some(cell) ==> (old(self).owned(cell.actor) ==> final(self).strong_of(cell.actor) == old(self).strong_of(cell.actor) - 1 && final(self).concrete_of(cell.actor) == old(self).concrete_of(cell.actor) && final(self).mailbox_of(cell.actor) == (if old(self).strong_of(cell.actor) == 1 {
                old(self).mailbox_of(cell.actor).step(Step::Close)
            } else {
                old(self).mailbox_of(cell.actor)
            }) && (forall|i: int|
                0 <= i < old(self).actors@.len() && i != cell.actor as int ==> final(self).actors@[i] == old(self).actors@[i])),
    {
        match a.inner {
            None => {},
            Some(cell) => {
                if cell.actor < self.actors.len() as u64 {
                    let idx = cell.actor as usize;
                    let ent = &mut self.actors[idx];
                    if ent.strong > 0 {
                        ent.strong = ent.strong - 1;
                        if ent.strong == 0 {
                            ent.mailbox.close();
                        }
                        proof {
                            assert forall|c: int| 0 <= c < self.calls@.len() implies call_ok(
                                self.actors@,
                                #[trigger] self.calls@[c],
                            ) by {
                                assert(call_ok(old(self).actors@, self.calls@[c]));
                            }
                        }
                    } else {
                        proof {
                            assert(self.actors@ =~= old(self).actors@);
                        }
                    }
                }
            },
        }
    }

    /// Upgrade a weak handle to a strong one. While the resource is still
    /// owned this succeeds, yields a handle equal by identity to the ones
    /// it was downgraded from, and adds one strong owner; once the actor
    /// is gone it yields a detached handle.
    pub fn upgrade(&mut self, w: &WeakAddr) -> (a: Addr)
        requires
            old(self).wf(),
            match w.inner {
                Some(cell) => old(self).owned(cell.actor) ==> old(self).strong_of(cell.actor)
                    < u64::MAX,
                None => true,
            },
        ensures
            final(self).wf(),
            final(self).calls@ == old(self).calls@,
            final(self).actors@.len() == old(self).actors@.len(),
            a == old(self).upgrade_result(*w),
            w.inner matches Some(cell) ==> (old(self).owned(cell.actor) ==> final(self).strong_of(cell.actor) == old(self).strong_of(cell.actor) + 1 && final(self).mailbox_of(cell.actor) == old(self).mailbox_of(cell.actor) && final(self).concrete_of(cell.actor) == old(self).concrete_of(cell.actor) && (forall|i: int|
                0 <= i < old(self).actors@.len() && i != cell.actor as int ==> final(self).actors@[i] == old(self).actors@[i])),
            w.is_detached() ==> final(self).actors@ == old(self).actors@,
            w.inner matches Some(cell) ==> (!old(self).owned(cell.actor) ==> final(self).actors@
                == old(self).actors@),
    {
        match w.inner {
            None => Addr::detached(),
            Some(cell) => {
                if cell.actor < self.actors.len() as u64 {
                    let idx = cell.actor as usize;
                    let ent = &mut self.actors[idx];
                    if ent.strong > 0 {
                        ent.strong = ent.strong + 1;
                        proof {
                            assert forall|c: int| 0 <= c < self.calls@.len() implies call_ok(
                                self.actors@,
                                #[trigger] self.calls@[c],
                            ) by {
                                assert(call_ok(old(self).actors@, self.calls@[c]));
                            }
                        }
                        Addr { inner: w.inner, facet: w.facet }
                    } else {
                        proof {
                            assert(self.actors@ =~= old(self).actors@);
                        }
                        Addr::detached()
                    }
                } else {
                    Addr::detached()
                }
            },
        }
    }

    /// Enqueue an exclusive item on the actor a strong handle refers to.
    /// Through a detached handle, or one whose actor is unknown, this is
    /// a silent no-op; a terminated mailbox likewise discards the item.
    pub fn send_mut(&mut self, a: &Addr, item: u64)
        requires
            old(self).wf(),
        ensures
            final(self).wf(),
            final(self).calls@ == old(self).calls@,
            final(self).actors@.len() == old(self).actors@.len(),
            a.is_detached() ==> final(self).actors@ == old(self).actors@,
            a.inner matches Some(cell) ==> (!old(self).has_actor(cell.actor) ==> final(self).actors@ == old(self).actors@),
            a.inner matches Some(cell) ==> (old(self).has_actor(cell.actor) ==> final(self).mailbox_of(cell.actor) == old(self).mailbox_of(cell.actor).step(Step::EnqueueExclusive(item)) && final(self).strong_of(cell.actor) == old(self).strong_of(cell.actor) && final(self).concrete_of(cell.actor) == old(self).concrete_of(cell.actor) && (forall|i: int|
                0 <= i < old(self).actors@.len() && i != cell.actor as int ==> final(self).actors@[i] == old(self).actors@[i])),
    {
        match a.inner {
            None => {},
            Some(cell) => {
                if cell.actor < self.actors.len() as u64 {
                    let idx = cell.actor as usize;
                    let ent = &mut self.actors[idx];
                    ent.mailbox.enqueue_exclusive(item);
                    proof {
                        self.lemma_calls_still_ok(*old(self), idx as int);
                    }
                }
            },
        }
    }

    /// Enqueue a background future on the actor a strong handle refers
    /// to, under the same silent no-op rules as `send_mut`.
    pub fn send_fut(&mut self, a: &Addr, item: u64)
        requires
            old(self).wf(),
        ensures
            final(self).wf(),
            final(self).calls@ == old(self).calls@,
            final(self).actors@.len() == old(self).actors@.len(),
            a.is_detached() ==> final(self).actors@ == old(self).actors@,
            a.inner matches Some(cell) ==> (!old(self).has_actor(cell.actor) ==> final(self).actors@ == old(self).actors@),
            a.inner matches Some(cell) ==> (old(self).has_actor(cell.actor) ==> final(self).mailbox_of(cell.actor) == old(self).mailbox_of(cell.actor).step(Step::EnqueueBackground(item)) && final(self).strong_of(cell.actor) == old(self).strong_of(cell.actor) && final(self).concrete_of(cell.actor) == old(self).concrete_of(cell.actor) && (forall|i: int|
                0 <= i < old(self).actors@.len() && i != cell.actor as int ==> final(self).actors@[i] == old(self).actors@[i])),
    {
        match a.inner {
            None => {},
            Some(cell) => {
                if cell.actor < self.actors.len() as u64 {
                    let idx = cell.actor as usize;
                    let ent = &mut self.actors[idx];
                    ent.mailbox.enqueue_background(item);
                    proof {
                        self.lemma_calls_still_ok(*old(self), idx as int);
                    }
                }
            },
        }
    }

    /// Enqueue an exclusive item through a weak handle. The item reaches
    /// the actor only while the resource is still owned; otherwise the
    /// send is a silent no-op, exactly as through a detached handle.
    pub fn send_mut_weak(&mut self, w: &WeakAddr, item: u64)
        requires
            old(self).wf(),
        ensures
            final(self).wf(),
            final(self).calls@ == old(self).calls@,
            final(self).actors@.len() == old(self).actors@.len(),
            w.is_detached() ==> final(self).actors@ == old(self).actors@,
            w.inner matches Some(cell) ==> (!old(self).owned(cell.actor) ==> final(self).actors@ == old(self).actors@),
            w.inner matches Some(cell) ==> (old(self).owned(cell.actor) ==> final(self).mailbox_of(cell.actor) == old(self).mailbox_of(cell.actor).step(Step::EnqueueExclusive(item)) && final(self).strong_of(cell.actor) == old(self).strong_of(cell.actor) && final(self).concrete_of(cell.actor) == old(self).concrete_of(cell.actor) && (forall|i: int|
                0 <= i < old(self).actors@.len() && i != cell.actor as int ==> final(self).actors@[i] == old(self).actors@[i])),
    {
        match w.inner {
            None => {},
            Some(cell) => {
                if cell.actor < self.actors.len() as u64 {
                    let idx = cell.actor as usize;
                    let ent = &mut self.actors[idx];
                    if ent.strong > 0 {
                        ent.mailbox.enqueue_exclusive(item);
                        proof {
                            self.lemma_calls_still_ok(*old(self), idx as int);
                        }
                    } else {
                        proof {
                            assert(self.actors@ =~= old(self).actors@);
                        }
                    }
                }
            },
        }
    }

    /// Enqueue a background future through a weak handle, under the same
    /// silent no-op rules as `send_mut_weak`.
    pub fn send_fut_weak(&mut self, w: &WeakAddr, item: u64)
        requires
            old(self).wf(),
        ensures
            final(self).wf(),
            final(self).calls@ == old(self).calls@,
            final(self).actors@.len() == old(self).actors@.len(),
            w.is_detached() ==> final(self).actors@ == old(self).actors@,
            w.inner matches Some(cell) ==> (!old(self).owned(cell.actor) ==> final(self).actors@ == old(self).actors@),
            w.inner matches Some(cell) ==> (old(self).owned(cell.actor) ==> final(self).mailbox_of(cell.actor) == old(self).mailbox_of(cell.actor).step(Step::EnqueueBackground(item)) && final(self).strong_of(cell.actor) == old(self).strong_of(cell.actor) && final(self).concrete_of(cell.actor) == old(self).concrete_of(cell.actor) && (forall|i: int|
                0 <= i < old(self).actors@.len() && i != cell.actor as int ==> final(self).actors@[i] == old(self).actors@[i])),
    {
        match w.inner {
            None => {},
            Some(cell) => {
                if cell.actor < self.actors.len() as u64 {
                    let idx = cell.actor as usize;
                    let ent = &mut self.actors[idx];
                    if ent.strong > 0 {
                        ent.mailbox.enqueue_background(item);
                        proof {
                            self.lemma_calls_still_ok(*old(self), idx as int);
                        }
                    } else {
                        proof {
                            assert(self.actors@ =~= old(self).actors@);
                        }
                    }
                }
            },
        }
    }

    /// After a change that touched at most the mailbox of the actor at
    /// `idx`, and did not change whether any mailbox has terminated,
    /// every call is still consistent.
    proof fn lemma_calls_still_ok(&self, pre: System, idx: int)
        requires
            pre.wf(),
            self.calls@ == pre.calls@,
            self.actors@.len() == pre.actors@.len(),
            forall|i: int| 0 <= i < pre.actors@.len() && i != idx ==> self.actors@[i] == pre.actors@[i],
            0 <= idx < pre.actors@.len() ==> self.actors@[idx].mailbox@.terminated() == pre.actors@[idx].mailbox@.terminated(),
        ensures
            forall|c: int|
                0 <= c < self.calls@.len() ==> call_ok(self.actors@, #[trigger] self.calls@[c]),
    {
        assert forall|c: int| 0 <= c < self.calls@.len() implies call_ok(
            self.actors@,
            #[trigger] self.calls@[c],
        ) by {
            assert(call_ok(pre.actors@, pre.calls@[c]));
        }
    }

    /// Cancel every pending call handed to this actor.
    fn cancel_calls_of(&mut self, id: u64)
        ensures
            final(self).actors@ == old(self).actors@,
            final(self).calls@.len() == old(self).calls@.len(),
            forall|c: int|
                0 <= c < old(self).calls@.len() ==> final(self).calls@[c] == cancel_one(
                    old(self).calls@[c],
                    id,
                ),
    {
        let n = self.calls.len();
        let mut i: usize = 0;
        while i < n
            invariant
                n == self.calls@.len(),
                i <= n,
                self.actors@ == old(self).actors@,
                forall|c: int|
                    0 <= c < i ==> self.calls@[c] == cancel_one(old(self).calls@[c], id),
                forall|c: int| i <= c < n ==> self.calls@[c] == old(self).calls@[c],
            decreases n - i,
        {
            let ent = &mut self.calls[i];
            let tied = match ent.actor {
                Some(aid) => aid == id,
                None => false,
            };
            let pending = match ent.status {
                CallStatus::Pending => true,
                _ => false,
            };
            if tied && pending {
                ent.status = CallStatus::Cancelled;
            }
            i = i + 1;
        }
    }

    /// Make a call-with-result through a strong handle: hand the actor a
    /// racing background item and return the deferred result cell, keyed
    /// by a fresh call identity. Through a detached handle, or once the
    /// actor's task has exited, the racing item is dropped at once and
    /// the cell is cancelled from the start: the caller gets the
    /// cancellation outcome, never an error and never a panic.
    pub fn call_fut<T>(&mut self, a: &Addr) -> (r: (u64, Produces<T, u64>))
        requires
            old(self).wf(),
        ensures
            final(self).wf(),
            r.0 == old(self).calls@.len() as u64,
            r.1 == Produces::<T, u64>::Deferred(r.0),
            final(self).has_call(r.0),
            final(self).calls@.len() == old(self).calls@.len() + 1,
            forall|c: int|
                0 <= c < old(self).calls@.len() ==> final(self).calls@[c] == old(self).calls@[c],
            final(self).actors@.len() == old(self).actors@.len(),
            a.is_detached() ==> final(self).call_status(r.0) == CallStatus::Cancelled && final(self).actors@ == old(self).actors@,
            a.inner matches Some(cell) ==> (!old(self).has_actor(cell.actor) ==> final(self).call_status(r.0) == CallStatus::Cancelled && final(self).actors@ == old(self).actors@),
            a.inner matches Some(cell) ==> (old(self).has_actor(cell.actor) && old(self).mailbox_of(cell.actor).terminated() ==> final(self).call_status(r.0) == CallStatus::Cancelled && final(self).actors@ == old(self).actors@),
            a.inner matches Some(cell) ==> (old(self).has_actor(cell.actor) && !old(self).mailbox_of(cell.actor).terminated() ==> final(self).call_status(r.0) == CallStatus::Pending && final(self).call_actor(r.0) == Some(cell.actor) && final(self).mailbox_of(cell.actor) == old(self).mailbox_of(cell.actor).step(Step::EnqueueBackground(old(self).calls@.len() as u64)) && final(self).strong_of(cell.actor) == old(self).strong_of(cell.actor) && (forall|i: int|
                0 <= i < old(self).actors@.len() && i != cell.actor as int ==> final(self).actors@[i] == old(self).actors@[i])),
    {
        let call = self.calls.len() as u64;
        match a.inner {
            None => {
                self.calls.push(CallCell { status: CallStatus::Cancelled, actor: None });
            },
            Some(cell) => {
                if cell.actor < self.actors.len() as u64 {
                    let idx = cell.actor as usize;
                    let terminated = self.actors[idx].mailbox.is_terminated();
                    if terminated {
                        self.calls.push(
                            CallCell { status: CallStatus::Cancelled, actor: Some(cell.actor) },
                        );
                    } else {
                        let ent = &mut self.actors[idx];
                        ent.mailbox.enqueue_background(call);
                        self.calls.push(
                            CallCell { status: CallStatus::Pending, actor: Some(cell.actor) },
                        );
                        proof {
                            assert forall|c: int| 0 <= c < self.calls@.len() implies call_ok(
                                self.actors@,
                                #[trigger] self.calls@[c],
                            ) by {
                                if c < old(self).calls@.len() {
                                    assert(call_ok(old(self).actors@, old(self).calls@[c]));
                                }
                            }
                        }
                    }
                } else {
                    self.calls.push(CallCell { status: CallStatus::Cancelled, actor: None });
                }
            },
        }
        (call, Produces::Deferred(call))
    }

    /// The racing item of a pending call ran and sent its result.
    pub fn deliver_call(&mut self, c: u64)
        requires
            old(self).wf(),
            old(self).has_call(c),
            old(self).call_status(c) == CallStatus::Pending,
        ensures
            final(self).wf(),
            final(self).actors@ == old(self).actors@,
            final(self).calls@.len() == old(self).calls@.len(),
            final(self).call_status(c) == CallStatus::Delivered,
            final(self).call_actor(c) == old(self).call_actor(c),
            forall|d: int|
                0 <= d < old(self).calls@.len() && d != c as int ==> final(self).calls@[d] == old(self).calls@[d],
    {
        let n = self.calls.len();
        let idx = c as usize;
        proof {
            assert((c as int) < (n as int));
            assert(idx as int == c as int);
        }
        let ent = &mut self.calls[idx];
        ent.status = CallStatus::Delivered;
    }

    /// The acquire phase of one actor's task: decide what it runs next.
    /// If the decision is to terminate, the actor state is destroyed and
    /// every call still pending with this actor resolves to cancellation,
    /// because its producing side is dropped with the task.
    pub fn acquire(&mut self, id: u64) -> (d: Decision)
        requires
            old(self).wf(),
            old(self).has_actor(id),
            old(self).mailbox_of(id).phase == Phase::Acquiring,
        ensures
            final(self).wf(),
            final(self).actors@.len() == old(self).actors@.len(),
            final(self).calls@.len() == old(self).calls@.len(),
            final(self).mailbox_of(id) == old(self).mailbox_of(id).step(Step::Acquire),
            final(self).strong_of(id) == old(self).strong_of(id),
            final(self).concrete_of(id) == old(self).concrete_of(id),
            forall|i: int|
                0 <= i < old(self).actors@.len() && i != id as int ==> final(self).actors@[i] == old(self).actors@[i],
            d == (if old(self).mailbox_of(id).queue.len() > 0 {
                Decision::Execute(old(self).mailbox_of(id).queue[0])
            } else if old(self).mailbox_of(id).closed {
                Decision::Terminate
            } else {
                Decision::Wait
            }),
            d is Terminate ==> final(self).mailbox_of(id).terminated() && final(self).mailbox_of(id).dropped && (forall|c: int|
                0 <= c < old(self).calls@.len() ==> final(self).calls@[c] == cancel_one(old(self).calls@[c], id)),
            !(d is Terminate) ==> final(self).calls@ == old(self).calls@,
    {
        let n = self.actors.len();
        let idx = id as usize;
        proof {
            assert((id as int) < (n as int));
            assert(idx as int == id as int);
        }
        let d = {
            let ent = &mut self.actors[idx];
            ent.mailbox.acquire()
        };
        let terminate = match d {
            Decision::Terminate => true,
            _ => false,
        };
        if terminate {
            self.cancel_calls_of(id);
            proof {
                assert forall|c: int| 0 <= c < self.calls@.len() implies call_ok(
                    self.actors@,
                    #[trigger] self.calls@[c],
                ) by {
                    assert(call_ok(old(self).actors@, old(self).calls@[c]));
                    assert(self.calls@[c] == cancel_one(old(self).calls@[c], id));
                }
            }
        } else {
            proof {
                self.lemma_calls_still_ok(*old(self), idx as int);
            }
        }
        d
    }

    /// The current exclusive item of one actor ran to completion. With
    /// `stop` the task exits at once: queued and in-flight work is
    /// discarded, the actor state is destroyed, and every call still
    /// pending with this actor resolves to cancellation.
    pub fn item_done(&mut self, id: u64, stop: bool)
        requires
            old(self).wf(),
            old(self).has_actor(id),
            old(self).mailbox_of(id).phase == Phase::Executing,
        ensures
            final(self).wf(),
            final(self).actors@.len() == old(self).actors@.len(),
            final(self).calls@.len() == old(self).calls@.len(),
            final(self).mailbox_of(id) == old(self).mailbox_of(id).step(Step::ItemDone(stop)),
            final(self).strong_of(id) == old(self).strong_of(id),
            final(self).concrete_of(id) == old(self).concrete_of(id),
            forall|i: int|
                0 <= i < old(self).actors@.len() && i != id as int ==> final(self).actors@[i] == old(self).actors@[i],
            stop ==> final(self).mailbox_of(id).terminated() && final(self).mailbox_of(id).dropped && (forall|c: int|
                0 <= c < old(self).calls@.len() ==> final(self).calls@[c] == cancel_one(old(self).calls@[c], id)),
            !stop ==> final(self).calls@ == old(self).calls@,
    {
        let n = self.actors.len();
        let idx = id as usize;
        proof {
            assert((id as int) < (n as int));
            assert(idx as int == id as int);
        }
        {
            let ent = &mut self.actors[idx];
            ent.mailbox.item_done(stop);
        }
        if stop {
            self.cancel_calls_of(id);
            proof {
                assert forall|c: int| 0 <= c < self.calls@.len() implies call_ok(
                    self.actors@,
                    #[trigger] self.calls@[c],
                ) by {
                    assert(call_ok(old(self).actors@, old(self).calls@[c]));
                    assert(self.calls@[c] == cancel_one(old(self).calls@[c], id));
                }
            }
        } else {
            proof {
                self.lemma_calls_still_ok(*old(self), idx as int);
            }
        }
    }

    /// The in-flight background future of one actor at position `i`
    /// completed and leaves the in-flight set.
    pub fn background_done(&mut self, id: u64, i: usize)
        requires
            old(self).wf(),
            old(self).has_actor(id),
            i < old(self).mailbox_of(id).inflight.len(),
        ensures
            final(self).wf(),
            final(self).actors@.len() == old(self).actors@.len(),
            final(self).calls@ == old(self).calls@,
            final(self).mailbox_of(id) == old(self).mailbox_of(id).step(
                Step::BackgroundDone(i as int),
            ),
            final(self).strong_of(id) == old(self).strong_of(id),
            final(self).concrete_of(id) == old(self).concrete_of(id),
            forall|j: int|
                0 <= j < old(self).actors@.len() && j != id as int ==> final(self).actors@[j] == old(self).actors@[j],
    {
        let n = self.actors.len();
        let idx = id as usize;
        proof {
            assert((id as int) < (n as int));
            assert(idx as int == id as int);
        }
        let ent = &mut self.actors[idx];
        ent.mailbox.background_done(i);
        proof {
            self.lemma_calls_still_ok(*old(self), idx as int);
        }
    }

    /// A deferred result which resolves when the actor stops, or at once
    /// when it has already stopped or the handle is detached. It is a
    /// call-with-result whose racing item never resolves by itself, so
    /// the only way it resolves is the cancellation that the mailbox's
    /// own shutdown causes by dropping the producing side.
    pub fn termination(&mut self, a: &Addr) -> (t: Termination)
        requires
            old(self).wf(),
        ensures
            final(self).wf(),
            t.0 == Produces::<(), u64>::Deferred(old(self).calls@.len() as u64),
            final(self).has_call(old(self).calls@.len() as u64),
            final(self).calls@.len() == old(self).calls@.len() + 1,
            forall|c: int|
                0 <= c < old(self).calls@.len() ==> final(self).calls@[c] == old(self).calls@[c],
            final(self).actors@.len() == old(self).actors@.len(),
            a.is_detached() ==> final(self).call_status(old(self).calls@.len() as u64) == CallStatus::Cancelled,
            a.inner matches Some(cell) ==> (old(self).has_actor(cell.actor) && old(self).mailbox_of(cell.actor).terminated() ==> final(self).call_status(old(self).calls@.len() as u64) == CallStatus::Cancelled),
            a.inner matches Some(cell) ==> (old(self).has_actor(cell.actor) && !old(self).mailbox_of(cell.actor).terminated() ==> final(self).call_status(old(self).calls@.len() as u64) == CallStatus::Pending && final(self).call_actor(old(self).calls@.len() as u64) == Some(cell.actor)),
    {
        let r = self.call_fut::<()>(a);
        Termination(r.1)
    }

    /// The identity a weak handle observes: the actor's identity while
    /// the resource is owned, and the detached sentinel afterwards.
    pub fn weak_ptr(&self, w: &WeakAddr) -> (r: Option<u64>)
        ensures
            r == (match w.inner {
                Some(cell) => if self.owned(cell.actor) {
                    Some(cell.actor)
                } else {
                    Option::<u64>::None
                },
                None => None,
            }),
    {
        match w.inner {
            None => None,
            Some(cell) => {
                if cell.actor < self.actors.len() as u64 {
                    let idx = cell.actor as usize;
                    if self.actors[idx].strong > 0 {
                        Some(cell.actor)
                    } else {
                        None
                    }
                } else {
                    None
                }
            },
        }
    }
}

/// Upgrade after downgrade round-trips: while the actor's resource is
/// still owned, upgrading the weak handle a strong handle was downgraded
/// to yields a handle equal to the original by identity, under the same
/// facet.
pub proof fn lemma_downgrade_upgrade_identity(s: System, a: Addr)
    requires
        a.inner matches Some(cell) && s.owned(cell.actor),
    ensures
        s.upgrade_result(a.spec_downgrade()).spec_ptr() == a.spec_ptr(),
        !s.upgrade_result(a.spec_downgrade()).is_detached(),
        s.upgrade_result(a.spec_downgrade()).facet == a.facet,
{
}

/// Once the actor's resource is no longer owned by any strong handle,
/// upgrading any weak handle to it yields a detached handle.
pub proof fn lemma_upgrade_after_actor_gone(s: System, w: WeakAddr)
    requires
        w.inner matches Some(cell) ==> !s.owned(cell.actor),
    ensures
        s.upgrade_result(w).is_detached(),
{
}

} // verus!
