//! The two degenerate futures: one that is always ready and one that is
//! never ready (and never arranges to be woken).

use vstd::prelude::*;

use crate::futures::Step;

verus! {

/// A task that resolves on every poll.
#[derive(Debug, Clone, Copy)]
pub struct Ready;

/// Creates the always-ready task.
pub fn ready() -> Ready {
    Ready
}

impl Ready {
    /// Every poll resolves.
    pub fn poll_step(&self) -> (r: Step<()>)
        ensures
            r is Ready,
    {
        Step::Ready(())
    }
}

/// A task that never resolves; as it never invokes a waker, an executor that
/// awaits it blocks forever.
#[derive(Debug, Clone, Copy)]
pub struct Pending;

/// Creates the never-ready task.
pub fn pending() -> Pending {
    Pending
}

impl Pending {
    /// Every poll yields.
    pub fn poll_step(&self) -> (r: Step<()>)
        ensures
            r is Pending,
    {
        Step::Pending
    }
}

} // verus!
