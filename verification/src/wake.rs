//! The resume token that a scheduler hands to a consumer when it suspends.
//!
//! A channel stores the token and invokes it; it never looks inside.

use vstd::prelude::*;
use std::task::Waker;

verus! {

/// `std::task::Waker`, carried through as an opaque value.
#[verifier::external_type_specification]
#[verifier::external_body]
pub struct ExWaker(Waker);

/// `Waker::wake_by_ref` signals the task that owns the token. It returns
/// nothing and changes nothing that the channels can observe, so nothing is
/// claimed of it beyond that it may be called.
pub assume_specification[ Waker::wake_by_ref ](waker: &Waker);

} // verus!
