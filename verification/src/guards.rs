//! Guarded helpers that refuse specific bad inputs.
//!
//! Calling one of these with its bad value is a caller error; each
//! precondition rules the bad value out, so the bodies cannot panic.

use vstd::prelude::*;
use vstd::pervasive::unreached;

verus! {

/// This function will return non-zero values passed to it.
///
/// Calling it with zero is a caller error; the precondition rules zero out.
pub fn do_not_call_with_zero(val: u64) -> (r: u64)
    requires
        val != 0,
    ensures
        r == val,
{
    val
}

/// This function will return non-one values passed to it.
///
/// Calling it with one is a caller error; the precondition rules one out.
pub fn do_not_call_with_one(val: u64) -> (r: u64)
    requires
        val != 1,
    ensures
        r == val,
{
    panic_on_bad_value(val, 1);
    val
}

/// Refuses a `val` equal to `bad`; the precondition makes the refusing
/// branch unreachable.
fn panic_on_bad_value(val: u64, bad: u64)
    requires
        val != bad,
{
    if val == bad {
        unreached()
    }
}

} // verus!
