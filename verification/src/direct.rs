//! The baseline variant: no wrapper at all.
//!
//! The caller awaits the inner source directly, so one progress attempt's
//! observable outcome is exactly whatever the source yielded.

use vstd::prelude::*;

use crate::outcome::PollOutcome;

verus! {

/// One attempt to make progress without any wrapper: the inner source's
/// outcome, unchanged.
pub fn poll_read(inner: PollOutcome) -> (r: PollOutcome)
    ensures
        r == inner,
{
    inner
}

} // verus!
