use vstd::prelude::*;

use crate::error::ScanError;

verus! {

/// Sizes, in samples, of the two kinds of window a scan reads.
#[derive(Debug, Clone, Copy, PartialEq, Eq, Structural)]
pub struct ScanConfig {
    /// Length of a correlation window and of the reference chunk: one second.
    pub chunk_len: u64,
    /// Length of the match window searched for the reference chunk.
    pub window_len: u64,
}

impl ScanConfig {
    /// Both windows are non-empty and the reference chunk fits in the match
    /// window, so that a distance profile has at least one entry.
    pub open spec fn wf(&self) -> bool {
        1 <= self.chunk_len <= self.window_len
    }

    /// Number of entries in a distance profile of the reference chunk over
    /// the match window: one for each offset at which the chunk fits.
    pub open spec fn profile_len(&self) -> nat {
        (self.window_len - self.chunk_len + 1) as nat
    }

    /// Builds the window sizes from a sample rate (samples per second) and
    /// the duration of the match window in whole seconds.
    pub fn new(sample_rate: u64, window_secs: u64) -> (r: Result<ScanConfig, ScanError>)
        ensures
            r is Ok <==> (sample_rate >= 1 && window_secs >= 1
                && sample_rate * window_secs <= u64::MAX),
            r is Ok ==> (r->Ok_0.chunk_len == sample_rate
                && r->Ok_0.window_len == sample_rate * window_secs
                && r->Ok_0.wf()),
            r is Err ==> r->Err_0 == ScanError::ConfigurationError,
    {
        if sample_rate == 0 || window_secs == 0 {
            return Err(ScanError::ConfigurationError);
        }
        match sample_rate.checked_mul(window_secs) {
            Some(window_len) => {
                assert(sample_rate * window_secs >= sample_rate) by (nonlinear_arith)
                    requires window_secs >= 1, sample_rate >= 1;
                Ok(ScanConfig { chunk_len: sample_rate, window_len })
            },
            None => Err(ScanError::ConfigurationError),
        }
    }
}

} // verus!
