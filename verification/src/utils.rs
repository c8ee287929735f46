//! Utility types and traits.

use vstd::prelude::*;

verus! {

use crate::actor::Produces;

/// A deferred result which resolves upon termination of an actor.
///
/// It is the result of calling a never-resolving item on the actor: the
/// only way it can resolve is through cancellation, which happens exactly
/// when the actor's mailbox shuts down and drops the producing side. An
/// already terminated or detached target yields one that is cancelled
/// from the start.
#[derive(Debug)]
pub struct Termination(pub Produces<(), u64>);

/// Helper trait for things which can be converted into a result. It lets
/// an actor method return either a plain value or a result.
pub trait IntoResult<T, E>: Sized {
    /// What the conversion yields.
    spec fn spec_into_result(self) -> Result<T, E>;

    /// Perform the conversion.
    fn into_result(self) -> (r: Result<T, E>)
        ensures
            r == self.spec_into_result(),
    ;
}

impl<T, E> IntoResult<T, E> for Result<T, E> {
    /// A result converts to itself.
    open spec fn spec_into_result(self) -> Result<T, E> {
        self
    }

    fn into_result(self) -> (r: Result<T, E>) {
        self
    }
}

impl<T, E> IntoResult<T, E> for T {
    /// A plain value converts to success.
    open spec fn spec_into_result(self) -> Result<T, E> {
        Ok(self)
    }

    fn into_result(self) -> (r: Result<T, E>) {
        Ok(self)
    }
}

/// Implemented by values able to accept messages of type `M`, such as a
/// running actor behind a handle.
pub trait Handle<M> {
    /// Handle the message.
    fn handle(&self, msg: M);
}

} // verus!
