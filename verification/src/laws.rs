//! Laws relating the wrapper variants.
//!
//! The variants differ only in where their state lives; these proofs pin down
//! that nothing observable differs. Together with each variant's own
//! contracts — every `forward_outcome` and `poll_read` returns the delegated
//! outcome unchanged — they say: bytes produced and the order of decisions are
//! identical across the variants, and a timed wrapper's timer alone gates when
//! the inner source is consulted.

use vstd::prelude::*;

use crate::boxed_wrap;
use crate::inline_wrap;
use crate::timer::{WrapDecision, WrapTimer};

verus! {

/// One progress attempt is observably identical across the two timed
/// variants: from equal timer states and an equal attempt time, both decide
/// the same and both leave the same timer state behind.
pub proof fn variants_poll_alike(t: WrapTimer, now_ms: u64)
    ensures
        boxed_wrap::poll_decision(t, now_ms) == inline_wrap::poll_decision(t, now_ms),
        boxed_wrap::poll_timer(t, now_ms) == inline_wrap::poll_timer(t, now_ms),
{
}

/// Over any schedule of progress attempts, the heap-boxed and the embedded
/// variant make the same decisions in the same order.
pub proof fn variants_run_alike(t: WrapTimer, polls: Seq<u64>)
    ensures
        boxed_wrap::run_decisions(t, polls) == inline_wrap::run_decisions(t, polls),
    decreases polls.len(),
{
    if polls.len() == 0 {
        assert(boxed_wrap::run_decisions(t, polls) =~= inline_wrap::run_decisions(t, polls));
    } else {
        variants_run_alike(boxed_wrap::poll_timer(t, polls[0]), polls.drop_first());
        assert(boxed_wrap::run_decisions(t, polls) =~= inline_wrap::run_decisions(t, polls));
    }
}

/// The timer alone gates delegation, in both timed variants alike: an attempt
/// strictly before the deadline reports "not ready" and changes nothing, so
/// the inner source is never consulted; an attempt at or after the deadline
/// delegates exactly one read and pushes the deadline to exactly one fixed
/// interval past the attempt.
pub proof fn timer_gates_delegation(t: WrapTimer, now_ms: u64)
    requires
        now_ms + t.interval_ms <= u64::MAX,
    ensures
        now_ms < t.deadline_ms ==> {
            &&& boxed_wrap::poll_decision(t, now_ms) == WrapDecision::NotReadyYet
            &&& boxed_wrap::poll_timer(t, now_ms) == t
            &&& inline_wrap::poll_decision(t, now_ms) == WrapDecision::NotReadyYet
            &&& inline_wrap::poll_timer(t, now_ms) == t
        },
        now_ms >= t.deadline_ms ==> {
            &&& boxed_wrap::poll_decision(t, now_ms) == WrapDecision::DelegateRead
            &&& boxed_wrap::poll_timer(t, now_ms).deadline_ms == now_ms + t.interval_ms
            &&& boxed_wrap::poll_timer(t, now_ms).interval_ms == t.interval_ms
            &&& inline_wrap::poll_decision(t, now_ms) == WrapDecision::DelegateRead
            &&& inline_wrap::poll_timer(t, now_ms).deadline_ms == now_ms + t.interval_ms
            &&& inline_wrap::poll_timer(t, now_ms).interval_ms == t.interval_ms
        },
{
}

} // verus!
