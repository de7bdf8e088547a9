//! Properties of a scan as a whole, proved from the transitions' contracts.
use vstd::prelude::*;

use crate::config::ScanConfig;
use crate::scan::{initial_phase_of, round_phase_of, total_cut, Phase, Scanner};

verus! {

/// A copy as long as its original has nothing cut from it: a scan of the two
/// is done before its first probe, with no cut recorded.
pub proof fn lemma_equal_lengths_finish_at_once(config: ScanConfig, len: u64)
    requires
        config.wf(),
    ensures
        initial_phase_of(config, len, len) == Phase::Done,
{
}

/// Once the offset has reached the end of the copy the span left to bisect
/// is empty: the round ends the scan without a probe, whatever the lengths
/// and the cuts found so far.
pub proof fn lemma_consumed_copy_finishes(
    config: ScanConfig,
    original_len: u64,
    copy_len: u64,
    cut_duration: u64,
)
    ensures
        round_phase_of(config, original_len, copy_len, copy_len, cut_duration) == Phase::Done,
{
}

/// When a scan is done, each record runs forward and starts at or after the
/// end of the one before, and the lengths of the records add up to the cut
/// duration. If it found any cut, those lengths are exactly what the original
/// has over the copy.
pub proof fn lemma_done_scan_accounts_for_cuts(s: &Scanner)
    requires
        s.wf(),
        s.phase == Phase::Done,
    ensures
        forall|i: int| 0 <= i < s.records@.len() ==> s.records@[i].start <= s.records@[i].end,
        forall|i: int| 0 < i < s.records@.len() ==> s.records@[i - 1].end <= s.records@[i].start,
        total_cut(s.records@) == s.cut_duration,
        s.records@.len() > 0 ==> total_cut(s.records@) == s.original_len - s.copy_len,
{
}

/// Once the copy is consumed or the cuts found account for the difference in
/// length, the scan neither probes nor measures, so no record follows.
pub proof fn lemma_exhausted_scan_records_nothing_more(s: &Scanner)
    requires
        s.wf(),
        s.spec_exhausted(),
    ensures
        !(s.phase is Locating),
        !(s.phase is Measuring),
{
}

/// The progress measure of a well-formed scan is a natural number. Each
/// recorded cut lowers it and each probe lowers the probes left in the
/// round, so a scan ends after finitely many actions.
pub proof fn lemma_progress_is_natural(s: &Scanner)
    requires
        s.wf(),
    ensures
        s.spec_progress() >= 0,
        s.phase is Locating ==> s.phase->Locating_0.remaining >= 1,
{
}

} // verus!
