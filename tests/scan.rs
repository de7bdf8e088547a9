use cutfinder::error::check_window;
use cutfinder::locate::probe_count;
use cutfinder::{Action, CutRecord, Locator, Phase, ScanConfig, ScanError, Scanner};

fn small_config() -> ScanConfig {
    // eight samples per second, a four-second match window
    ScanConfig::new(8, 4).unwrap()
}

#[test]
fn config_sizes_from_rate_and_duration() {
    let c = ScanConfig::new(44100, 3).unwrap();
    assert_eq!(c.chunk_len, 44100);
    assert_eq!(c.window_len, 132300);
}

#[test]
fn config_rejects_zero_and_overflow() {
    assert_eq!(ScanConfig::new(0, 3), Err(ScanError::ConfigurationError));
    assert_eq!(ScanConfig::new(44100, 0), Err(ScanError::ConfigurationError));
    assert_eq!(ScanConfig::new(u64::MAX, 2), Err(ScanError::ConfigurationError));
    assert!(ScanConfig::new(u64::MAX, 1).is_ok());
}

#[test]
fn window_checks() {
    assert_eq!(check_window(100, 90, 0, 10), Ok(()));
    assert_eq!(check_window(100, 91, 0, 10), Err(ScanError::ReadExhausted));
    assert_eq!(check_window(100, 101, 0, 0), Err(ScanError::SeekOutOfRange));
    assert_eq!(check_window(100, 60, 41, 0), Err(ScanError::SeekOutOfRange));
    assert_eq!(check_window(100, 60, 40, 0), Ok(()));
    assert_eq!(check_window(10, u64::MAX, u64::MAX, 1), Err(ScanError::SeekOutOfRange));
}

#[test]
fn probe_counts_are_ceiling_logarithms() {
    assert_eq!(probe_count(0), 0);
    assert_eq!(probe_count(1), 0);
    assert_eq!(probe_count(2), 1);
    assert_eq!(probe_count(3), 2);
    assert_eq!(probe_count(4), 2);
    assert_eq!(probe_count(5), 3);
    assert_eq!(probe_count(100), 7);
    assert_eq!(probe_count(1 << 40), 40);
    assert_eq!(probe_count((1 << 40) + 1), 41);
    assert_eq!(probe_count(u64::MAX), 64);
}

#[test]
fn locator_moves_by_halving_steps() {
    let mut l = Locator::start(10, 110);
    assert_eq!((l.candidate, l.step, l.remaining, l.stage), (60, 50, 7, 1));
    assert_eq!(l.advance(false), Ok(()));
    assert_eq!((l.candidate, l.step, l.remaining, l.stage), (10, 25, 6, 2));
    assert_eq!(l.advance(true), Ok(()));
    assert_eq!((l.candidate, l.step, l.remaining), (35, 12, 5));
    assert_eq!(l.advance(true), Ok(()));
    assert_eq!(l.advance(false), Ok(()));
    assert_eq!((l.candidate, l.step, l.remaining), (41, 3, 3));
}

#[test]
fn locator_refuses_positions_outside_the_copy() {
    let mut l = Locator::start(0, 100);
    assert_eq!(l.advance(true), Ok(()));
    assert_eq!(l.candidate, 100);
    let before = l;
    assert_eq!(l.advance(true), Err(ScanError::SeekOutOfRange));
    assert_eq!(l, before);

    let mut m = Locator::start(0, 100);
    assert_eq!(m.advance(false), Ok(()));
    assert_eq!(m.candidate, 0);
    assert_eq!(m.advance(false), Err(ScanError::SeekOutOfRange));
    assert_eq!(m.candidate, 0);
}

#[test]
fn locator_probes_may_fall_before_offset() {
    let mut l = Locator::start(100000, 231072);
    assert_eq!((l.candidate, l.step), (165536, 65536));
    assert_eq!(l.advance(false), Ok(()));
    assert_eq!(l.candidate, 100000);
    assert_eq!(l.advance(false), Ok(()));
    assert_eq!(l.candidate, 67232);
}

#[test]
fn identical_lengths_give_no_cut() {
    let s = Scanner::new(ScanConfig::new(44100, 2).unwrap(), 1_000_000, 1_000_000);
    assert_eq!(s.next_action(), Action::Finish);
    assert!(s.records.is_empty());
}

#[test]
fn empty_copy_needs_no_probe() {
    let s = Scanner::new(small_config(), 500, 0);
    assert_eq!(s.phase, Phase::Done);
    assert_eq!(s.next_action(), Action::Finish);
    assert!(s.records.is_empty());
}

#[test]
fn scan_round_records_cut_and_restarts() {
    let mut s = Scanner::new(small_config(), 200, 190);
    assert_eq!(s.next_action(), Action::Correlate { original_at: 95, copy_at: 95, count: 8 });
    // the span of 190 samples takes eight probes
    let outcomes = [false, true, false, false, true, true, false, true];
    let steps: [u64; 8] = [95, 47, 23, 11, 5, 2, 1, 0];
    let mut at: u64 = 95;
    for k in 0..8 {
        at = if outcomes[k] { at + steps[k] } else { at - steps[k] };
        s.on_correlation(outcomes[k]);
        if k < 7 {
            assert_eq!(
                s.next_action(),
                Action::Correlate { original_at: at, copy_at: at, count: 8 }
            );
        }
    }
    assert_eq!(at, 19);
    assert_eq!(
        s.next_action(),
        Action::Match { original_at: 19, window_len: 32, copy_at: 19, chunk_len: 8 }
    );
    s.on_distance_minimum(10);
    assert_eq!(s.records, vec![CutRecord { start: 19, end: 29 }]);
    assert_eq!((s.offset, s.cut_duration), (19, 10));
    // the cut accounts for the whole difference in length
    assert_eq!(s.next_action(), Action::Finish);
}

#[test]
fn second_round_probes_in_the_original_frame() {
    let mut s = Scanner::new(small_config(), 300, 280);
    for _ in 0..9 {
        if let Action::Correlate { .. } = s.next_action() {
            s.on_correlation(false);
        }
    }
    // every probe failed, so the candidate walked back past the start
    assert_eq!(s.next_action(), Action::Fail(ScanError::SeekOutOfRange));

    let mut t = Scanner::new(small_config(), 300, 280);
    let mut probes = 0;
    while let Action::Correlate { .. } = t.next_action() {
        t.on_correlation(probes % 2 == 1);
        probes += 1;
    }
    assert_eq!(probes, 9);
    if let Action::Match { copy_at, original_at, .. } = t.next_action() {
        assert_eq!((copy_at, original_at), (47, 47));
        t.on_distance_minimum(5);
        assert_eq!(t.records, vec![CutRecord { start: 47, end: 52 }]);
        assert_eq!(t.cut_duration, 5);
        assert_eq!(t.offset, copy_at);
        match t.next_action() {
            Action::Correlate { original_at, copy_at, .. } => {
                assert_eq!((original_at, copy_at), (168, 163))
            },
            other => panic!("unexpected action {:?}", other),
        }
    } else {
        panic!("expected a measurement");
    }
}

#[test]
fn probe_window_past_copy_end_fails() {
    // a span of 10 is probed at 5, and 5 + 8 runs past the copy's end
    let s = Scanner::new(small_config(), 40, 10);
    assert_eq!(s.next_action(), Action::Fail(ScanError::ReadExhausted));
}

#[test]
fn probe_window_past_original_end_fails() {
    let s = Scanner::new(small_config(), 101, 100);
    assert_eq!(s.next_action(), Action::Correlate { original_at: 50, copy_at: 50, count: 8 });
    let mut t = Scanner::new(small_config(), 101, 100);
    t.on_correlation(true);
    // 100 + 8 runs past both ends; the original is checked first
    assert_eq!(t.next_action(), Action::Fail(ScanError::ReadExhausted));
}

#[test]
fn match_window_past_original_end_fails() {
    // a span of one sample needs no probe and is measured at once
    let mut t = Scanner::new(ScanConfig::new(1, 4).unwrap(), 6, 1);
    assert_eq!(
        t.next_action(),
        Action::Match { original_at: 0, window_len: 4, copy_at: 0, chunk_len: 1 }
    );
    t.on_distance_minimum(3);
    // the next match window would start at 3 and need 4 samples of 6
    assert_eq!(t.next_action(), Action::Fail(ScanError::ReadExhausted));
}

#[test]
fn match_window_longer_than_original_is_refused_first() {
    let s = Scanner::new(small_config(), 31, 20);
    assert_eq!(s.next_action(), Action::Fail(ScanError::ConfigurationError));
    // nothing to scan: no window is needed
    let t = Scanner::new(small_config(), 20, 20);
    assert_eq!(t.next_action(), Action::Finish);
}

#[test]
fn empty_gap_at_same_offset_is_refused() {
    let mut s = Scanner::new(ScanConfig::new(1, 4).unwrap(), 10, 1);
    assert_eq!(
        s.next_action(),
        Action::Match { original_at: 0, window_len: 4, copy_at: 0, chunk_len: 1 }
    );
    s.on_distance_minimum(0);
    assert_eq!(s.next_action(), Action::Fail(ScanError::ConfigurationError));
    assert!(s.records.is_empty());
}

#[test]
fn located_start_before_offset_is_refused() {
    let mut s = Scanner::new(ScanConfig::new(1, 4).unwrap(), 100, 90);
    for m in [false, true, true, true, true, true, true] {
        s.on_correlation(m);
    }
    assert_eq!(
        s.next_action(),
        Action::Match { original_at: 41, window_len: 4, copy_at: 41, chunk_len: 1 }
    );
    s.on_distance_minimum(2);
    assert_eq!(s.records, vec![CutRecord { start: 41, end: 43 }]);
    assert_eq!(s.next_action(), Action::Correlate { original_at: 67, copy_at: 65, count: 1 });
    s.on_correlation(false);
    s.on_correlation(false);
    // a probe before the offset is still made
    assert_eq!(s.next_action(), Action::Correlate { original_at: 31, copy_at: 29, count: 1 });
    for _ in 0..4 {
        s.on_correlation(false);
    }
    // the located start, 19, lies before the offset 41
    assert_eq!(s.next_action(), Action::Fail(ScanError::ConfigurationError));
    assert_eq!(s.records.len(), 1);
}

#[test]
fn gap_past_length_difference_is_refused() {
    let mut s = Scanner::new(ScanConfig::new(1, 8).unwrap(), 9, 4);
    s.on_correlation(false);
    s.on_correlation(true);
    assert_eq!(
        s.next_action(),
        Action::Match { original_at: 1, window_len: 8, copy_at: 1, chunk_len: 1 }
    );
    s.on_distance_minimum(6);
    assert_eq!(s.next_action(), Action::Fail(ScanError::ConfigurationError));
    assert!(s.records.is_empty());
}

#[test]
fn cut_lengths_add_up() {
    let mut t = Scanner::new(ScanConfig::new(1, 4).unwrap(), 10, 1);
    t.on_distance_minimum(3);
    assert_eq!(t.records, vec![CutRecord { start: 0, end: 3 }]);
    assert_eq!(t.cut_duration, 3);
    // the copy's span from 0 is measured again with the new cut duration
    assert_eq!(
        t.next_action(),
        Action::Match { original_at: 3, window_len: 4, copy_at: 0, chunk_len: 1 }
    );
    t.on_distance_minimum(2);
    // the second cut follows the first in the original's samples
    assert_eq!(t.records, vec![CutRecord { start: 0, end: 3 }, CutRecord { start: 3, end: 5 }]);
    let total: u64 = t.records.iter().map(|r| r.end - r.start).sum();
    assert_eq!(total, 5);
    assert_eq!(total, t.cut_duration);
}
