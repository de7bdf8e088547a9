use vstd::prelude::*;

use crate::config::ScanConfig;
use crate::error::{check_window, window_fault, ScanError};
use crate::locate::Locator;

verus! {

/// A cut found by a scan: the samples of the original from `start` to `end`
/// are missing from the copy.
#[derive(Debug, Clone, Copy, PartialEq, Eq, Structural)]
pub struct CutRecord {
    pub start: u64,
    pub end: u64,
}

/// Sum of the lengths of a list of cuts.
pub open spec fn total_cut(records: Seq<CutRecord>) -> int
    decreases records.len(),
{
    if records.len() == 0 {
        0
    } else {
        total_cut(records.drop_last()) + (records.last().end - records.last().start)
    }
}

/// Where a scan stands.
#[derive(Debug, Clone, Copy, PartialEq, Eq, Structural)]
pub enum Phase {
    /// Bisecting for the start of the next cut; the caller compares the
    /// streams at the locator's candidate.
    Locating(Locator),
    /// The next cut starts at this position of the copy; the caller measures
    /// how many samples it removed.
    Measuring(u64),
    /// Every cut has been found.
    Done,
    /// The scan cannot go on.
    Failed(ScanError),
}

/// What a scan asks its caller to do next.
#[derive(Debug, Clone, Copy, PartialEq, Eq, Structural)]
pub enum Action {
    /// Read `count` samples of the original from `original_at` and as many
    /// of the copy from `copy_at`, and report whether they still match.
    Correlate { original_at: u64, copy_at: u64, count: u64 },
    /// Read `window_len` samples of the original from `original_at` and
    /// `chunk_len` of the copy from `copy_at`, and report the offset in the
    /// former at which the latter is closest.
    Match { original_at: u64, window_len: u64, copy_at: u64, chunk_len: u64 },
    /// The scan is over; its records are the result.
    Finish,
    /// The scan stopped with this error.
    Fail(ScanError),
}

/// The state of a scan of an original recording against a copy of it with
/// segments removed.
pub struct Scanner {
    pub config: ScanConfig,
    /// Length of the original, in samples.
    pub original_len: u64,
    /// Length of the copy, in samples.
    pub copy_len: u64,
    /// Position of the copy up to which its content has been accounted for.
    pub offset: u64,
    /// Samples removed by the cuts found so far.
    pub cut_duration: u64,
    /// The cuts found so far, in the order they were found.
    pub records: Vec<CutRecord>,
    pub phase: Phase,
}

/// The phase that follows a probe at `loc.candidate` being due: the probe,
/// unless one of its two windows does not fit in its stream.
pub open spec fn probe_phase_of(
    config: ScanConfig,
    original_len: u64,
    copy_len: u64,
    cut_duration: u64,
    loc: Locator,
) -> Phase {
    match window_fault(original_len as nat, loc.candidate + cut_duration, config.chunk_len as nat) {
        Some(e) => Phase::Failed(e),
        None => match window_fault(copy_len as nat, loc.candidate as int, config.chunk_len as nat) {
            Some(e) => Phase::Failed(e),
            None => Phase::Locating(loc),
        },
    }
}

/// The phase that follows a cut being located at `start`: its measurement,
/// unless the match window or the reference chunk does not fit.
pub open spec fn measure_phase_of(
    config: ScanConfig,
    original_len: u64,
    copy_len: u64,
    cut_duration: u64,
    start: u64,
) -> Phase {
    match window_fault(original_len as nat, start + cut_duration, config.window_len as nat) {
        Some(e) => Phase::Failed(e),
        None => match window_fault(copy_len as nat, start as int, config.chunk_len as nat) {
            Some(e) => Phase::Failed(e),
            None => Phase::Measuring(start),
        },
    }
}

/// The phase at the start of a round: done when the copy is consumed or the
/// cuts found account for the difference in length; else a bisection from
/// `offset` to the end of the copy, or at once a measurement where that span
/// needs no probe.
pub open spec fn round_phase_of(
    config: ScanConfig,
    original_len: u64,
    copy_len: u64,
    offset: u64,
    cut_duration: u64,
) -> Phase {
    if offset == copy_len || original_len <= copy_len + cut_duration {
        Phase::Done
    } else {
        let loc = Locator::spec_start(offset, copy_len);
        if loc.remaining == 0 {
            measure_phase_of(config, original_len, copy_len, cut_duration, loc.candidate)
        } else {
            probe_phase_of(config, original_len, copy_len, cut_duration, loc)
        }
    }
}

/// The phase in which a scan starts: as at the start of any round, except
/// that a match window longer than the original is refused before anything
/// is read.
pub open spec fn initial_phase_of(config: ScanConfig, original_len: u64, copy_len: u64) -> Phase {
    if !(copy_len == 0 || original_len <= copy_len) && original_len < config.window_len {
        Phase::Failed(ScanError::ConfigurationError)
    } else {
        round_phase_of(config, original_len, copy_len, 0, 0)
    }
}

impl Scanner {
    pub open spec fn wf(&self) -> bool {
        &&& self.config.wf()
        &&& self.offset <= self.copy_len
        &&& self.cut_duration <= self.original_len
        &&& total_cut(self.records@) == self.cut_duration
        &&& forall|i: int| 0 <= i < self.records@.len() ==> self.records@[i].start <= self.records@[i].end
        &&& forall|i: int| 0 < i < self.records@.len() ==> self.records@[i - 1].end <= self.records@[i].start
        &&& self.records@.len() > 0 ==> self.records@.last().end == self.offset + self.cut_duration
        &&& self.records@.len() > 0 ==> self.copy_len + self.cut_duration <= self.original_len
        &&& self.records@.len() > 0 ==> self.offset < self.copy_len
        &&& (self.phase is Locating || self.phase is Measuring) ==> !self.spec_exhausted()
        &&& self.phase_fits(self.phase)
        &&& (self.phase == Phase::Done ==> self.spec_exhausted())
    }

    /// Every window that phase `p` asks for lies inside its stream.
    pub open spec fn phase_fits(&self, p: Phase) -> bool {
        match p {
            Phase::Locating(loc) => {
                &&& loc.wf()
                &&& loc.remaining >= 1
                &&& loc.offset == self.offset
                &&& loc.offset + loc.length == self.copy_len
                &&& self.probe_fits(loc.candidate)
            },
            Phase::Measuring(start) => self.offset <= start && self.measure_fits(start),
            _ => true,
        }
    }

    /// Both correlation windows at `pos` lie inside their streams.
    pub open spec fn probe_fits(&self, pos: u64) -> bool {
        &&& pos + self.cut_duration + self.config.chunk_len <= self.original_len
        &&& pos + self.config.chunk_len <= self.copy_len
    }

    /// The match window and the reference chunk at `start` lie inside their
    /// streams.
    pub open spec fn measure_fits(&self, start: u64) -> bool {
        &&& start + self.cut_duration + self.config.window_len <= self.original_len
        &&& start + self.config.chunk_len <= self.copy_len
    }

    /// The scan has nothing left to find: the copy is consumed, or the cuts
    /// found so far account for all that the original has over the copy.
    pub open spec fn spec_exhausted(&self) -> bool {
        self.offset == self.copy_len || self.original_len <= self.copy_len + self.cut_duration
    }

    /// A quantity that each recorded cut lowers: the copy left to scan plus
    /// the original not yet accounted for as cut.
    pub open spec fn spec_progress(&self) -> int {
        (self.copy_len - self.offset) + (self.original_len - self.cut_duration)
    }

    /// A measured gap of `index` at `start` is refused: it neither moves the
    /// scan forward nor cuts anything, or it would make the cuts longer than
    /// all that the original has over the copy.
    pub open spec fn spec_refuses_gap(&self, start: u64, index: u64) -> bool {
        (index == 0 && start == self.offset) || self.copy_len + self.cut_duration + index > self.original_len
    }

    pub open spec fn spec_probe_phase(&self, loc: Locator) -> Phase {
        probe_phase_of(self.config, self.original_len, self.copy_len, self.cut_duration, loc)
    }

    pub open spec fn spec_measure_phase(&self, start: u64) -> Phase {
        measure_phase_of(self.config, self.original_len, self.copy_len, self.cut_duration, start)
    }

    pub open spec fn spec_round_phase(&self) -> Phase {
        round_phase_of(self.config, self.original_len, self.copy_len, self.offset, self.cut_duration)
    }

    /// The phase after the probe at the candidate reported `matched`.
    pub open spec fn spec_after_probe(&self, matched: bool) -> Phase {
        match self.phase {
            Phase::Locating(loc) => match loc.spec_moved(matched) {
                Err(e) => Phase::Failed(e),
                Ok(c) => {
                    let next = Locator {
                        candidate: c,
                        stage: (loc.stage + 1) as u64,
                        step: loc.step / 2,
                        remaining: (loc.remaining - 1) as u64,
                        ..loc
                    };
                    if next.remaining == 0 {
                        if c < self.offset {
                            Phase::Failed(ScanError::ConfigurationError)
                        } else {
                            self.spec_measure_phase(c)
                        }
                    } else {
                        self.spec_probe_phase(next)
                    }
                },
            },
            _ => self.phase,
        }
    }

    /// The action that a phase asks for.
    pub open spec fn spec_action(&self) -> Action {
        match self.phase {
            Phase::Locating(loc) => Action::Correlate {
                original_at: (loc.candidate + self.cut_duration) as u64,
                copy_at: loc.candidate,
                count: self.config.chunk_len,
            },
            Phase::Measuring(start) => Action::Match {
                original_at: (start + self.cut_duration) as u64,
                window_len: self.config.window_len,
                copy_at: start,
                chunk_len: self.config.chunk_len,
            },
            Phase::Done => Action::Finish,
            Phase::Failed(e) => Action::Fail(e),
        }
    }

    fn probe_phase(&self, loc: Locator) -> (p: Phase)
        ensures
            p == self.spec_probe_phase(loc),
            (loc.wf() && loc.remaining >= 1 && loc.offset == self.offset
                && loc.offset + loc.length == self.copy_len) ==> self.phase_fits(p),
    {
        match check_window(self.original_len, loc.candidate, self.cut_duration, self.config.chunk_len) {
            Err(e) => Phase::Failed(e),
            Ok(()) => match check_window(self.copy_len, loc.candidate, 0, self.config.chunk_len) {
                Err(e) => Phase::Failed(e),
                Ok(()) => Phase::Locating(loc),
            },
        }
    }

    fn measure_phase(&self, start: u64) -> (p: Phase)
        requires
            self.offset <= start,
        ensures
            p == self.spec_measure_phase(start),
            self.phase_fits(p),
    {
        match check_window(self.original_len, start, self.cut_duration, self.config.window_len) {
            Err(e) => Phase::Failed(e),
            Ok(()) => match check_window(self.copy_len, start, 0, self.config.chunk_len) {
                Err(e) => Phase::Failed(e),
                Ok(()) => Phase::Measuring(start),
            },
        }
    }

    fn round_phase(&self) -> (p: Phase)
        requires
            self.offset <= self.copy_len,
            self.cut_duration <= self.original_len,
        ensures
            p == self.spec_round_phase(),
            self.phase_fits(p),
    {
        if self.offset == self.copy_len || self.original_len - self.cut_duration <= self.copy_len {
            Phase::Done
        } else {
            let loc = Locator::start(self.offset, self.copy_len);
            if loc.remaining == 0 {
                self.measure_phase(loc.candidate)
            } else {
                self.probe_phase(loc)
            }
        }
    }

    /// Starts a scan of an original of `original_len` samples against a copy
    /// of `copy_len` samples, with no cut found yet.
    pub fn new(config: ScanConfig, original_len: u64, copy_len: u64) -> (r: Scanner)
        requires
            config.wf(),
        ensures
            r.wf(),
            r.config == config,
            r.original_len == original_len,
            r.copy_len == copy_len,
            r.offset == 0,
            r.cut_duration == 0,
            r.records@ == Seq::<CutRecord>::empty(),
            r.phase == initial_phase_of(config, original_len, copy_len),
    {
        let mut r = Scanner {
            config,
            original_len,
            copy_len,
            offset: 0,
            cut_duration: 0,
            records: Vec::new(),
            phase: Phase::Done,
        };
        r.phase = if !(copy_len == 0 || original_len <= copy_len) && original_len < config.window_len {
            Phase::Failed(ScanError::ConfigurationError)
        } else {
            r.round_phase()
        };
        assert(r.records@ =~= Seq::<CutRecord>::empty());
        r
    }

    /// Takes the outcome of the requested correlation: whether the two
    /// windows still matched. Probes may fall before the offset, but a
    /// located start before it would take the scan back over content already
    /// accounted for, and is a configuration error.
    pub fn on_correlation(&mut self, matched: bool)
        requires
            old(self).wf(),
            old(self).phase is Locating,
        ensures
            final(self).wf(),
            final(self).phase == old(self).spec_after_probe(matched),
            final(self).phase is Locating ==> final(self).phase->Locating_0.remaining
                == old(self).phase->Locating_0.remaining - 1,
            final(self).config == old(self).config,
            final(self).original_len == old(self).original_len,
            final(self).copy_len == old(self).copy_len,
            final(self).offset == old(self).offset,
            final(self).cut_duration == old(self).cut_duration,
            final(self).records@ == old(self).records@,
    {
        if let Phase::Locating(loc) = self.phase {
            let mut next = loc;
            match next.advance(matched) {
                Err(e) => {
                    self.phase = Phase::Failed(e);
                },
                Ok(()) => {
                    let p = if next.remaining == 0 {
                        if next.candidate < self.offset {
                            Phase::Failed(ScanError::ConfigurationError)
                        } else {
                            self.measure_phase(next.candidate)
                        }
                    } else {
                        self.probe_phase(next)
                    };
                    self.phase = p;
                },
            }
        }
    }

    /// Takes the offset in the match window at which the reference chunk
    /// was closest: the length of the cut being measured. Records the cut,
    /// in the original's samples, and starts the next round from its start
    /// in the copy. A gap that would stall the scan or overshoot the
    /// difference in length is a configuration error.
    pub fn on_distance_minimum(&mut self, index: u64)
        requires
            old(self).wf(),
            old(self).phase is Measuring,
            index < old(self).config.profile_len(),
        ensures
            final(self).wf(),
            ({
                let start = old(self).phase->Measuring_0;
                if old(self).spec_refuses_gap(start, index) {
                    &&& final(self).phase == Phase::Failed(ScanError::ConfigurationError)
                    &&& final(self).records@ == old(self).records@
                    &&& final(self).cut_duration == old(self).cut_duration
                    &&& final(self).offset == old(self).offset
                } else {
                    &&& final(self).records@ == old(self).records@.push(
                        CutRecord {
                            start: (start + old(self).cut_duration) as u64,
                            end: (start + old(self).cut_duration + index) as u64,
                        },
                    )
                    &&& final(self).cut_duration == old(self).cut_duration + index
                    &&& final(self).offset == start
                    &&& final(self).phase == final(self).spec_round_phase()
                    &&& final(self).spec_progress() < old(self).spec_progress()
                }
            }),
            final(self).config == old(self).config,
            final(self).original_len == old(self).original_len,
            final(self).copy_len == old(self).copy_len,
    {
        if let Phase::Measuring(start) = self.phase {
            if (index == 0 && start == self.offset)
                || self.original_len - self.cut_duration - index < self.copy_len {
                self.phase = Phase::Failed(ScanError::ConfigurationError);
                return;
            }
            let ghost before = self.records@;
            let from = start + self.cut_duration;
            self.records.push(CutRecord { start: from, end: from + index });
            assert(self.records@.drop_last() =~= before);
            self.cut_duration = self.cut_duration + index;
            self.offset = start;
            let p = self.round_phase();
            self.phase = p;
        }
    }

    /// What the caller is to do next.
    pub fn next_action(&self) -> (a: Action)
        requires
            self.wf(),
        ensures
            a == self.spec_action(),
    {
        match self.phase {
            Phase::Locating(loc) => Action::Correlate {
                original_at: loc.candidate + self.cut_duration,
                copy_at: loc.candidate,
                count: self.config.chunk_len,
            },
            Phase::Measuring(start) => Action::Match {
                original_at: start + self.cut_duration,
                window_len: self.config.window_len,
                copy_at: start,
                chunk_len: self.config.chunk_len,
            },
            Phase::Done => Action::Finish,
            Phase::Failed(e) => Action::Fail(e),
        }
    }
}

} // verus!
