//! Shapes for asynchronous call items.
//!
//! An exclusive item packages a method call so the mailbox can run it
//! against the actor state. Rust cannot express the lifetime of a future
//! borrowed from a closure argument directly, so call sites build these
//! explicit shapes instead: a [`Closure`] binds a stand-alone two-argument
//! asynchronous function to its captured argument, and [`AsyncMap`] chains
//! a continuation onto such a function's output. The functions these
//! shapes eventually run are the host's; the shapes themselves are plain
//! data.

use vstd::prelude::*;

verus! {

/// An explicit closure: a stand-alone asynchronous function expecting two
/// arguments, with its second argument bound at construction time.
#[derive(Debug)]
pub struct Closure<R, F, P> {
    /// The two-argument function to call.
    pub fun: F,
    /// The bound second argument.
    pub upvar: P,
    /// Carries the output type the bound function produces.
    pub phantom: core::marker::PhantomData<R>,
}

impl<R, F, P> Closure<R, F, P> {
    /// Constructor. `fun` should implement [`ClosureFn`] or
    /// [`ClosureFnMut`] for the result to be useful.
    pub fn new(fun: F, upvar: P) -> (r: Self)
        ensures
            r.fun == fun,
            r.upvar == upvar,
    {
        Closure { fun, upvar, phantom: core::marker::PhantomData }
    }
}

/// The calling shape of an asynchronous function whose first argument is
/// a shared reference: calling it yields a future that may borrow from
/// that argument.
pub trait ClosureFn<'a, T, P, R> {
    /// Type of the future returned by this function.
    type Future;

    /// Call this function with its two arguments.
    fn call_closure(self, arg1: &'a T, arg2: P) -> Self::Future;
}

/// The calling shape of an asynchronous function whose first argument is
/// an exclusive reference: calling it yields a future that may borrow
/// from that argument.
pub trait ClosureFnMut<'a, T, P, R> {
    /// Type of the future returned by this function.
    type Future;

    /// Call this function with its two arguments.
    fn call_closure(self, arg1: &'a mut T, arg2: P) -> Self::Future;
}

/// An asynchronous function with a continuation mapped over its output;
/// the continuation also receives the function's borrowed argument.
#[derive(Debug)]
pub struct AsyncMap<F, G> {
    /// The underlying asynchronous function.
    pub fun: F,
    /// The continuation applied to its output.
    pub g: G,
}

impl<F, G> AsyncMap<F, G> {
    /// Chain a continuation onto an asynchronous function.
    pub fn new(fun: F, g: G) -> (r: Self)
        ensures
            r.fun == fun,
            r.g == g,
    {
        AsyncMap { fun, g }
    }
}

} // verus!
