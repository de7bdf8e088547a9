use vstd::prelude::*;

verus! {

/// Why a scan stopped before it could finish.
#[derive(Debug, Clone, Copy, PartialEq, Eq, Structural)]
pub enum ScanError {
    /// A requested position lies beyond the end of a stream.
    SeekOutOfRange,
    /// Fewer samples remain in a stream than a window needs.
    ReadExhausted,
    /// A distance profile held a value that cannot be ordered.
    NonNumericDistance,
    /// The window sizes do not fit the sample rate.
    ConfigurationError,
}

/// What reading `count` samples from position `pos` of a stream of
/// `stream_len` samples runs into, if anything.
pub open spec fn window_fault(stream_len: nat, pos: int, count: nat) -> Option<ScanError> {
    if pos < 0 || pos > stream_len {
        Some(ScanError::SeekOutOfRange)
    } else if pos + count > stream_len {
        Some(ScanError::ReadExhausted)
    } else {
        None
    }
}

/// Checks that `count` samples can be read from position `pos + shift` of a
/// stream of `stream_len` samples.
pub fn check_window(stream_len: u64, pos: u64, shift: u64, count: u64) -> (r: Result<(), ScanError>)
    ensures
        r is Ok <==> window_fault(stream_len as nat, pos + shift, count as nat) is None,
        r is Err ==> Some(r->Err_0) == window_fault(stream_len as nat, pos + shift, count as nat),
{
    if shift > stream_len || pos > stream_len - shift {
        Err(ScanError::SeekOutOfRange)
    } else if count > stream_len - (pos + shift) {
        Err(ScanError::ReadExhausted)
    } else {
        Ok(())
    }
}

} // verus!
