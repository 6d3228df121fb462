//! A manual future that resolves to a greeting target on its first poll.
//!
//! Printing the greeting is I/O and stays with the caller, which receives the
//! name to greet from the poll.

use vstd::prelude::*;
use vstd::pervasive::unreached;

verus! {

/// A one-shot greeting task.
#[derive(Debug, Clone, Copy)]
pub enum Hello {
    /// Not yet polled.
    Init { name: &'static str },
    /// Resolved; polling again is a programming error.
    Done,
}

/// Creates the greeting task in its initial state.
pub fn hello(name: &'static str) -> (f: Hello)
    ensures
        f == (Hello::Init { name }),
{
    Hello::Init { name }
}

impl Hello {
    /// One poll: hands back the name to greet and resolves.
    pub fn poll_step(&mut self) -> (r: &'static str)
        requires
            (*old(self)) is Init,
        ensures
            *final(self) is Done,
            r == old(self)->name,
    {
        let name = match *self {
            Hello::Init { name } => name,
            Hello::Done => unreached(),
        };
        *self = Hello::Done;
        name
    }
}

} // verus!
