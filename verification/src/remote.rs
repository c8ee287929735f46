//! Actor proxies for remote communication.
//!
//! A remote proxy stands in for an actor living in another process or on
//! another machine: it wraps the serializable value that identifies and
//! reaches the real actor, while the transfer mechanism itself is left to
//! the surrounding program.

use vstd::prelude::*;

verus! {

/// Generic actor proxy type, wrapping the serializable value that reaches
/// the remote actor.
#[derive(Debug)]
pub struct Remote<T>(pub T);

impl<T> Remote<T> {
    /// Construct an instance of the remote proxy.
    pub fn new(inner: T) -> (r: Remote<T>)
        ensures
            r.0 == inner,
    {
        Remote(inner)
    }

    /// Access the inner value.
    pub fn inner(&self) -> (r: &T)
        ensures
            *r == self.0,
    {
        &self.0
    }
}

} // verus!
