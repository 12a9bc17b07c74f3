use cfspeedtest::results::{latency_result, ThroughputCollector};
use cfspeedtest::payload::{PayloadSize, TestType};
use cfspeedtest::retry::PayloadAttemptStats;
use cfspeedtest::stats::{calc_stats, median, StatSummary};

// Samples are thousandths: 1.0 is written 1_000.

#[test]
fn test_calc_stats_basic() {
    let vals = vec![1_000, 2_000, 3_000, 4_000, 5_000];
    let s = calc_stats(&vals).unwrap();
    assert_eq!(s.min, 1_000);
    assert_eq!(s.max, 5_000);
    assert_eq!(s.median, 3_000);
    assert_eq!(s.avg, 3_000);
}

#[test]
fn measurements_test_calc_stats_empty() {
    assert_eq!(calc_stats(&[]), None);
}

#[test]
fn test_calc_stats_single_value() {
    let result = calc_stats(&[10_000]).unwrap();
    assert_eq!(
        result,
        StatSummary { min: 10_000, q1: 10_000, median: 10_000, q3: 10_000, max: 10_000, avg: 10_000 }
    );
}

#[test]
fn test_calc_stats_two_values() {
    let result = calc_stats(&[10_000, 20_000]).unwrap();
    assert_eq!(result.min, 10_000);
    assert_eq!(result.max, 20_000);
    assert_eq!(result.median, 15_000);
    assert_eq!(result.avg, 15_000);
}

#[test]
fn test_calc_stats_multiple_values() {
    let result = calc_stats(&[1_000, 2_000, 3_000, 4_000, 5_000]).unwrap();
    assert_eq!(result.min, 1_000);
    assert_eq!(result.max, 5_000);
    assert_eq!(result.median, 3_000);
    assert_eq!(result.avg, 3_000);
}

#[test]
fn test_calc_stats_unsorted() {
    let result = calc_stats(&[5_000, 1_000, 3_000, 2_000, 4_000]).unwrap();
    assert_eq!(result.min, 1_000);
    assert_eq!(result.max, 5_000);
    assert_eq!(result.median, 3_000);
    assert_eq!(result.avg, 3_000);
}

#[test]
fn test_median_odd_length() {
    assert_eq!(median(&[1_000, 2_000, 3_000]), 2_000);
    assert_eq!(median(&[1_000, 2_000, 3_000, 4_000, 5_000]), 3_000);
}

#[test]
fn test_median_even_length() {
    assert_eq!(median(&[1_000, 2_000]), 1_500);
    assert_eq!(median(&[1_000, 2_000, 3_000, 4_000]), 2_500);
}

#[test]
fn test_median_single_value() {
    assert_eq!(median(&[5_000]), 5_000);
}

#[test]
fn single_sample_gives_equal_statistics() {
    let s = calc_stats(&[5_000]).unwrap();
    assert_eq!(
        s,
        StatSummary { min: 5_000, q1: 5_000, median: 5_000, q3: 5_000, max: 5_000, avg: 5_000 }
    );
}

#[test]
fn five_samples_full_summary() {
    // Odd length: both halves hold the median element.
    let s = calc_stats(&[1_000, 2_000, 3_000, 4_000, 5_000]).unwrap();
    assert_eq!(
        s,
        StatSummary { min: 1_000, q1: 2_000, median: 3_000, q3: 4_000, max: 5_000, avg: 3_000 }
    );
}

#[test]
fn even_length_quartiles() {
    let s = calc_stats(&[8, 1, 6, 3, 4, 2]).unwrap();
    // sorted 1 2 3 | 4 6 8
    assert_eq!(s.q1, 2);
    assert_eq!(s.median, 3); // midpoint of 3 and 4, rounded down
    assert_eq!(s.q3, 6);
    assert_eq!(s.avg, 4);
}

#[test]
fn fewer_than_four_samples_quartiles_are_extremes() {
    let s = calc_stats(&[30, 10, 20]).unwrap();
    assert_eq!((s.min, s.q1, s.median, s.q3, s.max), (10, 10, 20, 30, 30));
}

#[test]
fn summary_is_ordered_on_concrete_values() {
    let s = calc_stats(&[7, 7, 1, 100, 42, 3, 3, 9, 64]).unwrap();
    assert!(s.min <= s.q1 && s.q1 <= s.median && s.median <= s.q3 && s.q3 <= s.max);
    assert!(s.min <= s.avg && s.avg <= s.max);
}

#[test]
fn aggregator_is_stable_on_sorted_input() {
    let unsorted = vec![9, 4, 4, 1, 12, 7];
    let mut sorted = unsorted.clone();
    sorted.sort();
    let a = calc_stats(&sorted).unwrap();
    let b = calc_stats(&sorted).unwrap();
    let c = calc_stats(&unsorted).unwrap();
    assert_eq!(a, b);
    assert_eq!(a, c);
}

#[test]
fn large_samples_do_not_overflow() {
    let s = calc_stats(&[u64::MAX, u64::MAX - 1]).unwrap();
    assert_eq!(s.median, u64::MAX - 1);
    assert_eq!(s.avg, u64::MAX - 1);
}

#[test]
fn latency_result_of_no_samples_is_zero() {
    let r = latency_result(vec![]);
    assert_eq!((r.avg_ms, r.min_ms, r.max_ms), (0, 0, 0));
    let r = latency_result(vec![12_000, 8_000, 10_000]);
    assert_eq!((r.avg_ms, r.min_ms, r.max_ms), (10_000, 8_000, 12_000));
    assert_eq!(r.samples, vec![12_000, 8_000, 10_000]);
}

#[test]
fn overall_is_mean_of_largest_tested_size() {
    let mut c = ThroughputCollector::new(TestType::Download);
    let st = PayloadAttemptStats { attempts: 2, successes: 2, skipped: 0, target: 2 };
    c.add_size(PayloadSize::K100, &[10_000, 20_000], st);
    c.add_size(PayloadSize::M1, &[40_000, 60_000], st);
    let none = PayloadAttemptStats { attempts: 8, successes: 0, skipped: 8, target: 2 };
    c.add_size(PayloadSize::M10, &[], none);
    c.add_skipped(PayloadSize::M25);
    let r = c.finish();
    assert_eq!(r.overall_mbps, 50_000);
    assert_eq!(r.measurements.len(), 4);
    assert_eq!(r.measurements[2].payload_size, PayloadSize::M1);
    assert_eq!(r.stats.len(), 2);
    assert_eq!(r.attempts.len(), 3);
    assert_eq!(r.skipped, vec![PayloadSize::M25]);
}
