//! Gathering exactly the requested number of bytes from a source that yields
//! them in chunks.
//!
//! A read of "exactly `n` bytes" is driven as a sequence of read attempts,
//! each of which may produce any non-empty prefix of what is still owed. This
//! state machine accumulates those chunks and decides after each one whether
//! the request is complete, more is owed, or the source was exhausted early
//! (a short read, which is an error).

use vstd::prelude::*;

use crate::outcome::ReadError;

verus! {

/// What one delivered chunk means for an exact-length read in progress.
#[derive(Clone, Copy, Debug, PartialEq, Eq, Structural)]
pub enum ExactStep {
    /// More bytes are still owed; attempt another read.
    Continue,
    /// The requested count has been reached exactly.
    Done,
    /// The chunk was empty: the source is exhausted short of the request.
    Failed(ReadError),
}

/// An exact-length read in progress: how many bytes were requested, and the
/// bytes gathered so far.
pub struct ExactRead {
    wanted: usize,
    data: Vec<u8>,
}

impl ExactRead {
    /// How many bytes the caller asked for.
    pub closed spec fn wanted(&self) -> usize {
        self.wanted
    }

    /// The bytes gathered so far, in delivery order.
    pub closed spec fn data(&self) -> Seq<u8> {
        self.data@
    }

    /// An exact-length read never holds more bytes than it asked for.
    pub open spec fn wf(&self) -> bool {
        self.data().len() <= self.wanted()
    }

    /// A fresh request for exactly `wanted` bytes, with nothing gathered yet.
    pub fn new(wanted: usize) -> (r: Self)
        ensures
            r.wanted() == wanted,
            r.data() == Seq::<u8>::empty(),
            r.wf(),
    {
        ExactRead { wanted, data: Vec::new() }
    }

    /// How many bytes are still owed.
    pub fn remaining(&self) -> (n: usize)
        requires
            self.wf(),
        ensures
            n == self.wanted() - self.data().len(),
    {
        self.wanted - self.data.len()
    }

    /// How many bytes have been gathered so far.
    pub fn count(&self) -> (n: usize)
        ensures
            n == self.data().len(),
    {
        self.data.len()
    }

    /// Takes one chunk delivered by the source. An empty chunk means the
    /// source is exhausted: the request fails as a short read and nothing is
    /// recorded. A non-empty chunk is appended whole; the step reports `Done`
    /// exactly when the request is now complete and `Continue` otherwise.
    pub fn on_chunk(&mut self, chunk: Vec<u8>) -> (s: ExactStep)
        requires
            old(self).wf(),
            old(self).data().len() < old(self).wanted(),
            old(self).data().len() + chunk@.len() <= old(self).wanted(),
        ensures
            final(self).wf(),
            final(self).wanted() == old(self).wanted(),
            chunk@.len() == 0 ==> s == ExactStep::Failed(ReadError::ShortRead)
                && final(self).data() == old(self).data(),
            chunk@.len() > 0 ==> final(self).data() == old(self).data() + chunk@,
            chunk@.len() > 0 ==> (s == ExactStep::Done <==> final(self).data().len()
                == final(self).wanted()),
            chunk@.len() > 0 ==> (s == ExactStep::Continue <==> final(self).data().len()
                < final(self).wanted()),
    {
        if chunk.len() == 0 {
            ExactStep::Failed(ReadError::ShortRead)
        } else {
            let mut chunk = chunk;
            self.data.append(&mut chunk);
            if self.data.len() == self.wanted {
                ExactStep::Done
            } else {
                ExactStep::Continue
            }
        }
    }

    /// Surrenders the gathered bytes.
    pub fn into_bytes(self) -> (v: Vec<u8>)
        ensures
            v@ == self.data(),
    {
        self.data
    }
}

} // verus!
