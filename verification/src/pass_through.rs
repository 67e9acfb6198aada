//! The trivial wrapper variant: no timer of its own.
//!
//! This wrapper establishes the pattern's skeleton: every progress attempt
//! delegates straight to the inner source and hands the outcome back
//! unchanged. It relies on the inner source itself already tolerating a
//! no-movement-after-start discipline; the wrapper adds no state of its own.

use vstd::prelude::*;

use crate::outcome::PollOutcome;

verus! {

/// The pass-through wrapper: it holds no timer and makes no decision.
pub struct ReadWrap {}

impl ReadWrap {
    /// A fresh pass-through wrapper.
    pub fn new() -> (w: Self) {
        ReadWrap {}
    }

    /// One attempt to make progress: the inner source's outcome, unchanged.
    pub fn poll_read(&self, inner: PollOutcome) -> (r: PollOutcome)
        ensures
            r == inner,
    {
        inner
    }
}

} // verus!
