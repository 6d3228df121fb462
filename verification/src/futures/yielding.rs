//! A manual future that yields back to the executor exactly once.

use vstd::prelude::*;

use std::task::Waker;

use crate::futures::Step;

verus! {

/// A task that asks to be re-polled once, then resolves.
#[derive(Debug, Clone, Copy)]
pub struct YieldNow {
    /// Whether the task has already yielded.
    pub yielded: bool,
}

/// Creates the yielding task; it has not yielded yet.
pub fn yield_now() -> (f: YieldNow)
    ensures
        !f.yielded,
{
    YieldNow { yielded: false }
}

impl YieldNow {
    /// First poll: wakes its own waker (so the executor re-polls it) and
    /// yields; every later poll resolves.
    pub fn poll_step(&mut self, waker: &Waker) -> (r: Step<()>)
        ensures
            final(self).yielded,
            r is Ready <==> old(self).yielded,
    {
        if self.yielded {
            return Step::Ready(());
        }
        self.yielded = true;
        waker.wake_by_ref();
        Step::Pending
    }
}

} // verus!
