//! Hand-written task state machines.
//!
//! Each type here is a tiny future unrolled into an explicit state enum with
//! a verified step function: an external executor drives it by calling
//! `poll_step` until the step reports readiness. A step that returns
//! [`Step::Pending`] has arranged (by invoking the waker it was handed) to be
//! polled again.

pub mod greet;
pub mod readiness;
pub mod simplest;
pub mod two_step;
pub mod yielding;

use vstd::prelude::*;

verus! {

/// The outcome of one poll of a task state machine.
pub enum Step<T> {
    /// The task resolved to its value.
    Ready(T),
    /// The task yielded; it will be polled again once its waker fires.
    Pending,
}

} // verus!
