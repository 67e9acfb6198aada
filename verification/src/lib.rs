//! Four variants of a timed wrapper around an asynchronous byte source, and a
//! small iteration demonstration.
//!
//! Each wrapper variant exposes one operation, "attempt to make progress": it
//! first checks whether its timer has elapsed; if not, it reports that it is
//! not ready and leaves the inner source untouched; if it has, it pushes the
//! deadline forward by a fixed interval and delegates exactly one read attempt
//! to the inner source, propagating the source's outcome unchanged. The
//! variants differ only in where their state lives (heap-boxed or embedded),
//! never in observable behaviour; that equivalence is proved in [`laws`].
//!
//! The asynchronous run-loop itself (opening the source, awaiting, printing)
//! is I/O and lives outside this library; the library supplies the decision
//! logic, verified.

pub mod boxed_wrap;
pub mod direct;
pub mod exact;
pub mod inline_wrap;
pub mod iteration;
pub mod laws;
pub mod outcome;
pub mod pass_through;
pub mod timer;
