//! The call-with-result delivery glue.
//!
//! A one-shot channel is the primitive under every call-with-result: the
//! racing item carries the sending half, the caller's deferred result
//! cell holds the receiving half, and dropping either side is how
//! cancellation travels. The channel comes from the `futures` crate;
//! [`call_reply`] is the verified tail of a call-with-result item, which
//! delivers the outcome through it.

use vstd::prelude::*;

verus! {

#[verifier::external_type_specification]
#[verifier::external_body]
#[verifier::reject_recursive_types(T)]
/// The sending half of a `futures` one-shot channel, declared so that it
/// can stand in signatures.
pub struct ExOneshotSender<T>(futures::channel::oneshot::Sender<T>);

/// Relies on futures::channel::oneshot::Sender::send: the value is
/// either enqueued for the receiver, or, when the receiver was already
/// dropped, returned unchanged in the error; which of the two happens
/// depends on the concurrently running receiver, so no more is promised.
pub assume_specification<T>[ futures::channel::oneshot::Sender::<T>::send ](
    s: futures::channel::oneshot::Sender<T>,
    t: T,
) -> (r: Result<(), T>)
    ensures
        r matches Err(x) ==> x == t,
;

/// The tail of a call-with-result item: deliver a successful outcome to
/// the caller through the one-shot channel, or, on a failed one, consult
/// the actor's error hook. Returns the terminate-or-continue signal for
/// the mailbox: a call stops the actor exactly when it failed and the
/// hook asked to stop. A caller that dropped its receiver simply does
/// not hear back; that never stops the actor and never fails.
pub fn call_reply<T, E>(
    tx: futures::channel::oneshot::Sender<T>,
    outcome: Result<T, E>,
    hook_says_stop: bool,
) -> (stop: bool)
    ensures
        stop == (outcome is Err && hook_says_stop),
{
    match outcome {
        Ok(value) => {
            let _ = tx.send(value);
            false
        },
        Err(_) => hook_says_stop,
    }
}

} // verus!
