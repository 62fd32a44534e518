use entropy_trials::ratio::Fraction;
use entropy_trials::stats::{alerts, capture_score, difference, record_stats, Tally};

fn value(f: Fraction) -> f64 {
    f.numer as f64 / f.denom as f64
}

#[test]
fn seven_ones_three_zeros() {
    let s = record_stats(7, 3);
    assert_eq!(s.total, 10);
    assert_eq!(s.difference, 4);
    assert!((value(s.ratio_ones) - 0.7).abs() < 1e-12);
    assert!((value(s.ratio_zeros) - 0.3).abs() < 1e-12);
    assert!((value(s.variance) - 40.0).abs() < 1e-9);
    assert!((value(s.score) - 400.0).abs() < 1e-9);
    assert_eq!(s.score, Fraction { numer: 4000, denom: 10 });
    assert!((value(s.exact_ratio) - 7.0 / 3.0).abs() < 1e-12);
    // 10 % 3 == 1
    assert_eq!(s.rem_ones, Fraction { numer: 7, denom: 1 });
    assert_eq!(s.rem_zeros, Fraction { numer: 3, denom: 1 });
}

#[test]
fn ratios_add_up_to_one() {
    for (ones, zeros) in [(1u64, 0u64), (0, 1), (7, 3), (123, 456), (1, 2)] {
        let s = record_stats(ones, zeros);
        assert_eq!(s.ratio_ones.denom, s.ratio_zeros.denom);
        assert_eq!(s.ratio_ones.numer + s.ratio_zeros.numer, s.ratio_ones.denom);
        assert!((value(s.ratio_ones) + value(s.ratio_zeros) - 1.0).abs() < 1e-12);
    }
}

#[test]
fn score_grows_with_imbalance() {
    let small = capture_score(6, 4);
    let large = capture_score(8, 2);
    assert!((value(small) - 200.0).abs() < 1e-9);
    assert!((value(large) - 600.0).abs() < 1e-9);
    assert!((value(large) - 3.0 * value(small)).abs() < 1e-9);
    assert_eq!(capture_score(5, 5).numer, 0);
    assert!(value(capture_score(0, 9)) >= 0.0);
    assert_eq!(value(capture_score(0, 9)), 1000.0);
}

#[test]
fn reduction_without_zeros_is_one_to_one() {
    let s = record_stats(5, 0);
    assert_eq!(s.rem_ones, Fraction { numer: 1, denom: 1 });
    assert_eq!(s.rem_zeros, Fraction { numer: 1, denom: 1 });
    assert_eq!(s.exact_ratio, Fraction { numer: 0, denom: 1 });
    assert_eq!(s.score, Fraction { numer: 5000, denom: 5 });
}

#[test]
fn reduction_without_ones_is_one_to_one() {
    let s = record_stats(0, 4);
    assert_eq!(s.rem_ones, Fraction { numer: 1, denom: 1 });
    assert_eq!(s.rem_zeros, Fraction { numer: 1, denom: 1 });
    assert_eq!(s.exact_ratio, Fraction { numer: 0, denom: 4 });
    assert_eq!(value(s.ratio_ones), 0.0);
    assert_eq!(value(s.ratio_zeros), 1.0);
}

#[test]
fn reduction_with_zero_base_is_one_to_one() {
    let s = record_stats(5, 5);
    assert_eq!(s.rem_ones, Fraction { numer: 1, denom: 1 });
    assert_eq!(s.rem_zeros, Fraction { numer: 1, denom: 1 });
    let t = record_stats(2, 6);
    assert_eq!(t.rem_ones, Fraction { numer: 1, denom: 1 });
}

#[test]
fn reduction_uses_total_modulo_smaller_count() {
    let s = record_stats(5, 3);
    assert_eq!(s.rem_ones, Fraction { numer: 5, denom: 2 });
    assert_eq!(s.rem_zeros, Fraction { numer: 3, denom: 2 });
    let t = record_stats(3, 5);
    assert_eq!(t.rem_ones, Fraction { numer: 3, denom: 2 });
    assert_eq!(t.rem_zeros, Fraction { numer: 5, denom: 2 });
}

#[test]
fn alert_above_ten() {
    assert!(alerts(1, 0));
    assert!(!alerts(500, 500));
    // score exactly 10: no alert
    assert!(!alerts(505, 495));
    // score 12: difference 12 over 1000 rounds
    assert!(alerts(506, 494));
    assert!(capture_score(506, 494).exceeds(10));
    assert!(!capture_score(505, 495).exceeds(10));
}

#[test]
fn difference_is_absolute() {
    assert_eq!(difference(3, 10), 7);
    assert_eq!(difference(10, 3), 7);
    assert_eq!(difference(u64::MAX, 0), u64::MAX);
}

#[test]
fn tally_counts_each_round() {
    let mut t = Tally::new();
    assert_eq!(t.total(), Some(0));
    t.record(true);
    t.record(false);
    t.record(true);
    assert_eq!(t, Tally { ones: 2, zeros: 1 });
    assert_eq!(t.total(), Some(3));
    let full = Tally { ones: u64::MAX, zeros: 1 };
    assert_eq!(full.total(), None);
}

#[test]
fn largest_counts_do_not_overflow() {
    let s = record_stats(u64::MAX, u64::MAX);
    assert_eq!(s.total, 2 * (u64::MAX as u128));
    assert_eq!(s.score.numer, 0);
    let t = record_stats(u64::MAX, 0);
    assert_eq!(t.score, Fraction { numer: 1000 * (u64::MAX as u128), denom: u64::MAX as u128 });
}
