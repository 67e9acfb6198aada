//! The outcomes that a single read attempt can surface.

use vstd::prelude::*;

verus! {

/// A failure that a read attempt can surface. Every failure is propagated to
/// the caller unchanged: nothing is retried, suppressed or recovered.
#[derive(Clone, Copy, Debug, PartialEq, Eq, Structural)]
pub enum ReadError {
    /// The underlying source failed; the payload is the source's own error
    /// code, carried through verbatim.
    Failed(i32),
    /// The source was exhausted before the requested byte count was reached.
    ShortRead,
}

/// What one attempt to make progress on the inner byte source yields.
#[derive(Clone, Debug, PartialEq, Eq)]
pub enum PollOutcome {
    /// The source could not make progress yet.
    Pending,
    /// The source produced these bytes.
    Bytes(Vec<u8>),
    /// The source failed.
    Failed(ReadError),
}

} // verus!
