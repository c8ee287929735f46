//! The deferred result cell and the invocation outcome rule.
//!
//! A deferred result represents an eventual value in one of three states:
//! empty (no value was or will be produced; resolves to a cancellation
//! error), ready (wraps the value directly), or deferred (wraps a one-shot
//! slot that will itself resolve to another such cell, so that chains of
//! indirection collapse transparently). Polling is a loop of single steps;
//! [`poll_step`] is the verified decision each iteration takes, and the
//! hosting future repeats it until the cell leaves the deferred state.

use vstd::prelude::*;

verus! {

/// Error resolved by a deferred result whose producer disappeared without
/// sending: the sender was dropped, or the actor terminated mid-call.
#[derive(Debug, Clone, Copy, PartialEq, Eq, Structural)]
pub struct Canceled;

/// A value that may already be available, never arrive, or be supplied
/// later. `D` is the deferred slot: a one-shot receiver whose message is
/// itself such a cell, or any stand-in for one.
#[derive(Debug)]
pub enum Produces<T, D> {
    /// No value was produced, nor ever will be.
    Empty,
    /// A value is ready.
    Value(T),
    /// A value may be supplied later through this slot.
    Deferred(D),
}

impl<T, D> Produces<T, D> {
    /// Returns `Ok(Produces::Value(value))`, the usual successful outcome
    /// of an actor method.
    pub fn ok<E>(value: T) -> (r: Result<Produces<T, D>, E>)
        ensures
            r == Ok::<Produces<T, D>, E>(Produces::Value(value)),
    {
        Ok(Produces::Value(value))
    }
}

/// What one poll of a deferred slot reported.
#[derive(Debug)]
pub enum RecvEvent<T, D> {
    /// Nothing has been sent yet; the slot is handed back.
    Pending(D),
    /// The producer was dropped without sending.
    Dropped,
    /// The producer delivered the next cell of the chain.
    Delivered(Produces<T, D>),
}

/// What one polling step of a deferred result cell decided.
#[derive(Debug)]
pub enum PollStep<T, D> {
    /// The cell resolved, to a value or to cancellation.
    Ready(Result<T, Canceled>),
    /// Still waiting: reinstall this cell and suspend.
    NotYet(Produces<T, D>),
    /// One link of indirection collapsed: step this cell again within
    /// the same poll call.
    Collapse(Produces<T, D>),
}

/// One step of polling a deferred result cell.
///
/// An empty cell resolves to cancellation and a ready cell to its value.
/// A deferred cell follows what its slot reported: still pending, the
/// slot is reinstalled and the poll suspends; the producer gone, the cell
/// resolves to cancellation; a delivered cell replaces this one and is
/// stepped again at once, so that deferred-of-deferred chains collapse
/// within a single poll call rather than across scheduler turns.
pub fn poll_step<T, D>(cell: Produces<T, D>, ev: RecvEvent<T, D>) -> (r: PollStep<T, D>)
    ensures
        cell is Empty ==> r == PollStep::<T, D>::Ready(Err(Canceled)),
        cell matches Produces::Value(v) ==> r == PollStep::<T, D>::Ready(Ok(v)),
        cell is Deferred ==> (ev matches RecvEvent::Pending(d) ==> r == PollStep::<T, D>::NotYet(
            Produces::Deferred(d),
        )),
        (cell is Deferred && ev is Dropped) ==> r == PollStep::<T, D>::Ready(Err(Canceled)),
        cell is Deferred ==> (ev matches RecvEvent::Delivered(next) ==> r == PollStep::<
            T,
            D,
        >::Collapse(next)),
{
    match cell {
        Produces::Empty => PollStep::Ready(Err(Canceled)),
        Produces::Value(v) => PollStep::Ready(Ok(v)),
        Produces::Deferred(_) => match ev {
            RecvEvent::Pending(d) => PollStep::NotYet(Produces::Deferred(d)),
            RecvEvent::Dropped => PollStep::Ready(Err(Canceled)),
            RecvEvent::Delivered(next) => PollStep::Collapse(next),
        },
    }
}

/// The terminate-or-continue signal the invocation glue hands the
/// mailbox after an exclusive item ran: a successful outcome never stops
/// the actor, and a failed one stops it exactly when the actor's error
/// hook asked to stop.
pub fn outcome_stops_actor(errored: bool, hook_says_stop: bool) -> (stop: bool)
    ensures
        stop == (errored && hook_says_stop),
{
    errored && hook_says_stop
}

} // verus!
