//! What a call of a handler can end in.

use vstd::prelude::*;

verus! {

/// What became of a payload that a handler was called with.
#[derive(Clone, Copy, Debug, PartialEq, Eq, Structural)]
pub enum Delivery {
    /// The payload reached the callback at the end of the chain, which ran.
    Delivered,
    /// An adapter on the way declined the payload; no callback ran.
    Dropped,
}

/// The one failure of a call: a handler on the way was already executing.
#[derive(Clone, Copy, Debug, PartialEq, Eq, Structural)]
pub struct ReentrantInvocation;

/// The result of calling a handler once.
pub type Outcome = Result<Delivery, ReentrantInvocation>;

} // verus!
