//! Exact-length reads: accumulation, completion, and the short-read error.

use read_wrap::boxed_wrap;
use read_wrap::exact::{ExactRead, ExactStep};
use read_wrap::outcome::ReadError;
use read_wrap::timer::WrapDecision;

#[test]
fn chunks_accumulate_until_done() {
    let mut r = ExactRead::new(5);
    assert_eq!(r.remaining(), 5);
    assert_eq!(r.count(), 0);
    assert_eq!(r.on_chunk(vec![1, 2]), ExactStep::Continue);
    assert_eq!(r.remaining(), 3);
    assert_eq!(r.on_chunk(vec![3]), ExactStep::Continue);
    assert_eq!(r.on_chunk(vec![4, 5]), ExactStep::Done);
    assert_eq!(r.count(), 5);
    assert_eq!(r.into_bytes(), vec![1, 2, 3, 4, 5]);
}

#[test]
fn empty_chunk_is_short_read() {
    let mut r = ExactRead::new(3);
    assert_eq!(r.on_chunk(vec![7]), ExactStep::Continue);
    assert_eq!(
        r.on_chunk(Vec::new()),
        ExactStep::Failed(ReadError::ShortRead)
    );
    // the failed attempt recorded nothing
    assert_eq!(r.count(), 1);
    assert_eq!(r.into_bytes(), vec![7]);
}

#[test]
fn single_chunk_completes_exactly() {
    let mut r = ExactRead::new(32);
    let chunk: Vec<u8> = (0..32).collect();
    assert_eq!(r.on_chunk(chunk), ExactStep::Done);
    assert_eq!(r.count(), 32);
}

#[test]
fn thirty_two_bytes_after_one_sleep_cycle() {
    // requesting exactly 32 bytes with a one-second interval, against a source
    // that is already ready: the first attempt sleeps, the attempt just past
    // one second delegates, and the reported byte count is exactly 32
    let mut w = boxed_wrap::ReadWrap::new(0, 1000);
    assert_eq!(w.poll_step(900), WrapDecision::NotReadyYet);
    assert_eq!(w.poll_step(1001), WrapDecision::DelegateRead);
    let mut r = ExactRead::new(32);
    let chunk = vec![0xabu8; 32];
    assert_eq!(r.on_chunk(chunk), ExactStep::Done);
    assert_eq!(r.count(), 32);
    // the next attempt would sleep again until one further interval has passed
    assert_eq!(w.deadline_ms(), 2001);
}
