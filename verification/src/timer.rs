//! The decision state that the timed wrapper variants share.
//!
//! A timed wrapper is, observably, a deadline and a fixed interval: a progress
//! attempt before the deadline sleeps on, and an attempt at or after the
//! deadline pushes the deadline forward by the interval and delegates one read
//! to the inner source. Time is measured in milliseconds since the wrapper's
//! construction.

use vstd::prelude::*;

verus! {

/// The timer state of a timed wrapper: when it next fires, and how far each
/// firing pushes the deadline.
#[derive(Clone, Copy, Debug, PartialEq, Eq, Structural)]
pub struct WrapTimer {
    /// The instant, in milliseconds, at or after which the next progress
    /// attempt delegates to the inner source.
    pub deadline_ms: u64,
    /// The fixed interval, in milliseconds, by which each firing pushes the
    /// deadline forward.
    pub interval_ms: u64,
}

/// What one progress attempt on a timed wrapper does: sleep on, or delegate
/// exactly one read attempt to the inner source.
#[derive(Clone, Copy, Debug, PartialEq, Eq, Structural)]
pub enum WrapDecision {
    /// The deadline has not passed: report "not ready" and leave the inner
    /// source untouched.
    NotReadyYet,
    /// The deadline has passed: the timer was pushed forward and the caller
    /// now delegates one read attempt to the inner source.
    DelegateRead,
}

} // verus!
