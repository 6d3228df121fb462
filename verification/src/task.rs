//! Trusted declarations for the scheduler-provided waker type.
//!
//! A waker is the opaque resume capability handed to the channel by the
//! external task scheduler: invoking it tells the scheduler to re-poll the
//! suspended operation it belongs to. Nothing observable to this library
//! follows from waking, so the contracts below promise nothing about it.

use vstd::prelude::*;

verus! {

/// `std::task::Waker` is opaque to this library: values of it are stored,
/// moved and invoked, never inspected.
#[verifier::external_type_specification]
#[verifier::external_body]
pub struct ExWaker(std::task::Waker);

/// Relies on `std::task::Waker::wake`: consumes the waker and signals the
/// external scheduler; it returns nothing and we claim nothing of its effect.
pub assume_specification[ std::task::Waker::wake ](w: std::task::Waker);

/// Relies on `std::task::Waker::wake_by_ref`: as `wake`, without consuming
/// the waker.
pub assume_specification[ std::task::Waker::wake_by_ref ](w: &std::task::Waker);

} // verus!
