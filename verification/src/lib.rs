//! An in-process actor runtime core, verified.
//!
//! Each actor owns private state guarded by a single serializing mailbox
//! task. Handles to the actor are reference counted, compare by identity,
//! and silently drop work once the actor is gone. This crate verifies the
//! decision core of that runtime: the mailbox scheduling state machine,
//! the handle identity and lifecycle rules, the deferred result cell, and
//! the timer state machine. An asynchronous executor drives these
//! decision procedures; the procedures themselves are ordinary, verified
//! functions.

pub mod actor;
pub mod addr;
pub mod async_fn;
pub mod channel;
pub mod mailbox;
pub mod remote;
pub mod system;
pub mod timer;
pub mod utils;
