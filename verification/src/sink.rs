use vstd::prelude::*;

use crate::PipelineError;

verus! {

/// Bookkeeping for the wave sink: an open/finalized flag and the count of
/// samples accepted so far. The surrounding program owns the actual file
/// handle and the mutual-exclusion discipline; this state machine decides
/// what each operation is allowed to do and is mutated only while the sink
/// lock is held.
pub struct SinkWriter {
    finalized: bool,
    samples_written: u64,
}

impl SinkWriter {
    /// Whether the sink has been closed.
    pub closed spec fn is_finalized(self) -> bool {
        self.finalized
    }

    /// Samples accepted so far.
    pub closed spec fn samples_written(self) -> u64 {
        self.samples_written
    }

    /// Open a fresh sink: not finalized, nothing written.
    pub fn new() -> (r: Self)
        ensures
            !r.is_finalized(),
            r.samples_written() == 0,
    {
        SinkWriter { finalized: false, samples_written: 0 }
    }

    pub fn finalized(&self) -> (r: bool)
        ensures
            r == self.is_finalized(),
    {
        self.finalized
    }

    pub fn written(&self) -> (n: u64)
        ensures
            n == self.samples_written(),
    {
        self.samples_written
    }

    /// Accept `count` samples. After `finalize` this always fails with
    /// `AlreadyFinalized` and changes nothing; on an open sink it always
    /// succeeds and adds exactly `count` to the accepted total.
    pub fn append(&mut self, count: usize) -> (r: Result<(), PipelineError>)
        requires
            old(self).samples_written() + count <= u64::MAX,
        ensures
            old(self).is_finalized() ==> (r == Err::<(), PipelineError>(
                PipelineError::AlreadyFinalized,
            ) && *final(self) == *old(self)),
            !old(self).is_finalized() ==> (r == Ok::<(), PipelineError>(())
                && final(self).samples_written() == old(self).samples_written() + count
                && !final(self).is_finalized()),
    {
        if self.finalized {
            return Err(PipelineError::AlreadyFinalized);
        }
        self.samples_written = self.samples_written + count as u64;
        Ok(())
    }

    /// Close the sink. The first call succeeds; every later call fails with
    /// `AlreadyFinalized` and changes nothing.
    pub fn finalize(&mut self) -> (r: Result<(), PipelineError>)
        ensures
            old(self).is_finalized() ==> (r == Err::<(), PipelineError>(
                PipelineError::AlreadyFinalized,
            ) && *final(self) == *old(self)),
            !old(self).is_finalized() ==> (r == Ok::<(), PipelineError>(())
                && final(self).is_finalized()
                && final(self).samples_written() == old(self).samples_written()),
    {
        if self.finalized {
            return Err(PipelineError::AlreadyFinalized);
        }
        self.finalized = true;
        Ok(())
    }
}

} // verus!
