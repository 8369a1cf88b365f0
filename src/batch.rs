//! The batch driver's bookkeeping over a run of many packages.
use vstd::prelude::*;

verus! {

/// How many packages a batch has processed without an infrastructure failure.
pub struct BatchProgress {
    pub processed: u64,
}

impl BatchProgress {
    pub fn new() -> (r: BatchProgress)
        ensures
            r.processed == 0,
    {
        BatchProgress { processed: 0 }
    }

    /// Records the outcome of one package: `Some(successful)` when the
    /// pipeline returned, `None` when it failed (the failure is reported and
    /// the batch goes on). Returns whether to save a cache checkpoint, which
    /// happens on every tenth processed package that built successfully.
    pub fn record(&mut self, outcome: Option<bool>) -> (save_cache: bool)
        ensures
            outcome is None ==> final(self).processed == old(self).processed && !save_cache,
            outcome is Some ==> final(self).processed == (if old(self).processed < u64::MAX {
                old(self).processed + 1
            } else {
                old(self).processed as int
            }),
            outcome is Some ==> save_cache == (outcome->Some_0 && final(self).processed % 10 == 0),
    {
        match outcome {
            Some(successful) => {
                if self.processed < u64::MAX {
                    self.processed = self.processed + 1;
                }
                successful && self.processed % 10 == 0
            },
            None => false,
        }
    }
}

} // verus!
