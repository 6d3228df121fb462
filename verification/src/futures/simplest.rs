//! The simplest manual future: it adds two numbers and resolves on its first
//! poll.

use vstd::prelude::*;
use vstd::pervasive::unreached;

verus! {

/// A one-shot addition task.
#[derive(Debug, Clone, Copy)]
pub enum Add {
    /// Not yet polled.
    Init { x: u64, y: u64 },
    /// Resolved; polling again is a programming error.
    Done,
}

/// Creates the addition task in its initial state.
pub fn add(x: u64, y: u64) -> (f: Add)
    ensures
        f == (Add::Init { x, y }),
{
    Add::Init { x, y }
}

impl Add {
    /// Polling is legal while the task is unresolved and its sum fits.
    pub open spec fn pollable(self) -> bool {
        self matches Add::Init { x, y } && x + y <= u64::MAX
    }

    /// One poll: resolves to the sum. Polling a resolved task is a
    /// programming error, ruled out by the precondition.
    pub fn poll_step(&mut self) -> (r: u64)
        requires
            old(self).pollable(),
        ensures
            *final(self) is Done,
            r == old(self)->x + old(self)->y,
    {
        let (x, y) = match *self {
            Add::Init { x, y } => (x, y),
            Add::Done => unreached(),
        };
        *self = Add::Done;
        x + y
    }
}

} // verus!
