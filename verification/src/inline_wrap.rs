//! The timed wrapper variant whose state is embedded in the wrapper itself.
//!
//! Here the wrapper holds its timer as a plain field, mirroring a design where
//! nothing is separately heap-allocated and instead the whole wrapper is
//! immobilised in place at the point of first use, with field-by-field
//! projection inside the poll step. Observably it behaves exactly as the
//! heap-boxed variant ([`crate::boxed_wrap`]); only the placement of the state
//! differs.

use vstd::prelude::*;

use crate::outcome::PollOutcome;
use crate::timer::{WrapDecision, WrapTimer};

verus! {

/// What one progress attempt at time `now_ms` decides, given the timer `t`.
pub open spec fn poll_decision(t: WrapTimer, now_ms: u64) -> WrapDecision {
    if now_ms < t.deadline_ms {
        WrapDecision::NotReadyYet
    } else {
        WrapDecision::DelegateRead
    }
}

/// The timer after one progress attempt at time `now_ms`: unchanged while the
/// deadline has not passed, and pushed to `now_ms + interval` once it has.
pub open spec fn poll_timer(t: WrapTimer, now_ms: u64) -> WrapTimer {
    if now_ms < t.deadline_ms {
        t
    } else {
        WrapTimer { deadline_ms: (now_ms + t.interval_ms) as u64, interval_ms: t.interval_ms }
    }
}

/// The decisions this variant makes over a whole schedule of progress
/// attempts, in order, starting from timer `t`: each attempt is decided by the
/// timer state the previous attempts left behind.
pub open spec fn run_decisions(t: WrapTimer, polls: Seq<u64>) -> Seq<WrapDecision>
    decreases polls.len(),
{
    if polls.len() == 0 {
        Seq::empty()
    } else {
        seq![poll_decision(t, polls[0])] + run_decisions(poll_timer(t, polls[0]), polls.drop_first())
    }
}

/// A timed read wrapper with embedded state: nothing of it lives on the heap,
/// so the whole value must be held in place once polling has begun.
pub struct ReadWrap {
    timer: WrapTimer,
}

impl ReadWrap {
    /// The timer state this wrapper currently holds.
    pub closed spec fn timer(&self) -> WrapTimer {
        self.timer
    }

    /// A fresh wrapper whose first deadline is one full interval after `now_ms`.
    pub fn new(now_ms: u64, interval_ms: u64) -> (w: Self)
        requires
            now_ms + interval_ms <= u64::MAX,
        ensures
            w.timer() == (WrapTimer { deadline_ms: (now_ms + interval_ms) as u64, interval_ms }),
    {
        ReadWrap { timer: WrapTimer { deadline_ms: now_ms + interval_ms, interval_ms } }
    }

    /// The deadline, in milliseconds, of the next firing.
    pub fn deadline_ms(&self) -> (d: u64)
        ensures
            d == self.timer().deadline_ms,
    {
        self.timer.deadline_ms
    }

    /// The fixed interval, in milliseconds, between firings.
    pub fn interval_ms(&self) -> (i: u64)
        ensures
            i == self.timer().interval_ms,
    {
        self.timer.interval_ms
    }

    /// One attempt to make progress, at time `now_ms`. Before the deadline it
    /// reports "not ready" and changes nothing — in particular the inner
    /// source is never consulted. At or after the deadline it pushes the
    /// deadline forward by exactly the fixed interval and directs the caller
    /// to delegate exactly one read attempt to the inner source.
    pub fn poll_step(&mut self, now_ms: u64) -> (d: WrapDecision)
        requires
            now_ms + old(self).timer().interval_ms <= u64::MAX,
        ensures
            d == poll_decision(old(self).timer(), now_ms),
            final(self).timer() == poll_timer(old(self).timer(), now_ms),
    {
        if now_ms < self.timer.deadline_ms {
            WrapDecision::NotReadyYet
        } else {
            self.timer.deadline_ms = now_ms + self.timer.interval_ms;
            WrapDecision::DelegateRead
        }
    }

    /// Hands a delegated read's outcome on to the caller unchanged: no retry,
    /// no suppression, no rewriting.
    pub fn forward_outcome(&self, inner: PollOutcome) -> (r: PollOutcome)
        ensures
            r == inner,
    {
        inner
    }
}

} // verus!
