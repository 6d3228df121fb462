//! Manual futures that add three numbers in two steps, yielding to the
//! executor between the partial sum and the full sum.

use vstd::prelude::*;
use vstd::pervasive::unreached;

use std::task::Waker;

use crate::futures::Step;

verus! {

/// A two-step addition task that wakes itself directly when it yields.
#[derive(Debug, Clone, Copy)]
pub enum TripleAdd {
    /// Not yet polled.
    Init { x: u64, y: u64, z: u64 },
    /// The partial sum of the first two terms is taken.
    Step1 { c: u64, z: u64 },
    /// Resolved; polling again is a programming error.
    Done,
}

/// Creates the two-step addition task in its initial state.
pub fn triple_add(x: u64, y: u64, z: u64) -> (f: TripleAdd)
    ensures
        f == (TripleAdd::Init { x, y, z }),
{
    TripleAdd::Init { x, y, z }
}

impl TripleAdd {
    /// Polling is legal while the task is unresolved and its sums fit.
    pub open spec fn pollable(self) -> bool {
        match self {
            TripleAdd::Init { x, y, z } => x + y + z <= u64::MAX,
            TripleAdd::Step1 { c, z } => c + z <= u64::MAX,
            TripleAdd::Done => false,
        }
    }

    /// One poll: from the initial state the partial sum is taken, the waker
    /// is invoked (the task asks to be re-polled at once) and the task
    /// yields; the next poll resolves to the full sum.
    pub fn poll_step(&mut self, waker: &Waker) -> (r: Step<u64>)
        requires
            old(self).pollable(),
        ensures
            match *old(self) {
                TripleAdd::Init { x, y, z } => {
                    &&& *final(self) == (TripleAdd::Step1 { c: (x + y) as u64, z })
                    &&& r is Pending
                },
                TripleAdd::Step1 { c, z } => {
                    &&& *final(self) is Done
                    &&& r == Step::<u64>::Ready((c + z) as u64)
                },
                TripleAdd::Done => false,
            },
    {
        match *self {
            TripleAdd::Init { x, y, z } => {
                *self = TripleAdd::Step1 { c: x + y, z };
                waker.wake_by_ref();
                Step::Pending
            },
            TripleAdd::Step1 { c, z } => {
                *self = TripleAdd::Done;
                Step::Ready(c + z)
            },
            TripleAdd::Done => unreached(),
        }
    }
}

/// A task that asks to be re-polled once, then resolves; the two-step
/// addition below drives one of these instead of waking the waker itself.
#[derive(Debug, Clone, Copy)]
pub struct YieldNow {
    /// Whether the task has already yielded.
    pub yielded: bool,
}

impl YieldNow {
    /// Creates the yielding task; it has not yielded yet.
    pub fn new() -> (f: YieldNow)
        ensures
            !f.yielded,
    {
        YieldNow { yielded: false }
    }

    /// First poll: wakes the waker and yields; every later poll resolves.
    pub fn poll_step(&mut self, waker: &Waker) -> (r: Step<()>)
        ensures
            final(self).yielded,
            r is Ready <==> old(self).yielded,
    {
        if self.yielded {
            return Step::Ready(());
        }
        self.yielded = true;
        waker.wake_by_ref();
        Step::Pending
    }
}

/// A two-step addition task that yields through an inner [`YieldNow`].
#[derive(Debug, Clone, Copy)]
pub enum TripleAdd2 {
    /// Not yet polled.
    Init { x: u64, y: u64, z: u64 },
    /// The partial sum is taken and the inner yield is being driven.
    Step1 { yield_now: YieldNow, c: u64, z: u64 },
    /// Resolved; polling again is a programming error.
    Done,
}

/// Creates the task in its initial state.
pub fn triple_add2(x: u64, y: u64, z: u64) -> (f: TripleAdd2)
    ensures
        f == (TripleAdd2::Init { x, y, z }),
{
    TripleAdd2::Init { x, y, z }
}

impl TripleAdd2 {
    /// Polling is legal while the task is unresolved and its sums fit.
    pub open spec fn pollable(self) -> bool {
        match self {
            TripleAdd2::Init { x, y, z } => x + y + z <= u64::MAX,
            TripleAdd2::Step1 { yield_now, c, z } => c + z <= u64::MAX,
            TripleAdd2::Done => false,
        }
    }

    /// One poll: from the initial state the partial sum is taken and the
    /// fresh inner yield is polled at once, which wakes the waker and
    /// suspends; once the inner yield has yielded, the poll resolves to the
    /// full sum.
    pub fn poll_step(&mut self, waker: &Waker) -> (r: Step<u64>)
        requires
            old(self).pollable(),
        ensures
            match *old(self) {
                TripleAdd2::Init { x, y, z } => {
                    &&& *final(self) == (TripleAdd2::Step1 {
                        yield_now: YieldNow { yielded: true },
                        c: (x + y) as u64,
                        z,
                    })
                    &&& r is Pending
                },
                TripleAdd2::Step1 { yield_now, c, z } => {
                    if yield_now.yielded {
                        &&& *final(self) is Done
                        &&& r == Step::<u64>::Ready((c + z) as u64)
                    } else {
                        &&& *final(self) == (TripleAdd2::Step1 {
                            yield_now: YieldNow { yielded: true },
                            c,
                            z,
                        })
                        &&& r is Pending
                    }
                },
                TripleAdd2::Done => false,
            },
    {
        match *self {
            TripleAdd2::Init { x, y, z } => {
                let mut yield_now = YieldNow::new();
                let _pending = yield_now.poll_step(waker);
                *self = TripleAdd2::Step1 { yield_now, c: x + y, z };
                Step::Pending
            },
            TripleAdd2::Step1 { yield_now, c, z } => {
                let mut inner = yield_now;
                match inner.poll_step(waker) {
                    Step::Pending => {
                        *self = TripleAdd2::Step1 { yield_now: inner, c, z };
                        Step::Pending
                    },
                    Step::Ready(_) => {
                        *self = TripleAdd2::Done;
                        Step::Ready(c + z)
                    },
                }
            },
            TripleAdd2::Done => unreached(),
        }
    }
}

} // verus!
