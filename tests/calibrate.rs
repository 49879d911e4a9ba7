use bench_utils::{
    calibrate_work, effort_for_latency, insert_sorted, median_latency_nanos, median_of_sorted,
    uniform_observation_index, uniform_sample_size,
};
use std::hint::black_box;
use std::time::{Duration, Instant};

fn int_work(effort: u32) {
    let mut v: u64 = black_box(0x9E37_79B9_7F4A_7C15);
    for _ in 0..black_box(effort) {
        v = black_box(v.wrapping_mul(6_364_136_223_846_793_005).wrapping_add(1_442_695_040_888_963_407));
    }
    black_box(v);
}

#[test]
fn effort_extrapolates_linearly() {
    assert_eq!(effort_for_latency(Duration::from_nanos(1000), 100, 50), 2000);
    assert_eq!(effort_for_latency(Duration::from_millis(2), 100_000, 4_000_000), 50_000);
    assert_eq!(effort_for_latency(Duration::from_nanos(10), 3, 7), 4);
}

#[test]
fn effort_zero_measurement_reads_as_one_nano() {
    assert_eq!(effort_for_latency(Duration::from_nanos(1000), 100, 0), 100_000);
}

#[test]
fn effort_saturates_at_u32_max() {
    assert_eq!(effort_for_latency(Duration::from_nanos(u64::MAX), u32::MAX, 1), u32::MAX);
    assert_eq!(effort_for_latency(Duration::from_nanos(0), u32::MAX, 1), 0);
}

#[test]
fn effort_for_targets_beyond_u64_nanos() {
    // 2^64 s of target against 2^64 s measured for one iteration: exactly one iteration
    let huge = Duration::from_secs(u64::MAX);
    let nanos = huge.as_nanos();
    assert_eq!(effort_for_latency(huge, 1, nanos), 1);
    assert_eq!(effort_for_latency(huge, 7, nanos / 2), 14);
    assert_eq!(effort_for_latency(huge, u32::MAX, nanos), u32::MAX);
}

#[test]
fn insert_sorted_keeps_order() {
    let mut v: Vec<u128> = Vec::new();
    for x in [5u128, 1, 9, 5, 0, 7] {
        insert_sorted(&mut v, x);
    }
    assert_eq!(v, vec![0, 1, 5, 5, 7, 9]);
}

#[test]
fn median_of_odd_and_even() {
    assert_eq!(median_of_sorted(&vec![1, 4, 10]), 4);
    assert_eq!(median_of_sorted(&vec![1, 4, 10, 11]), 7);
    assert_eq!(median_of_sorted(&vec![u128::MAX - 1, u128::MAX]), u128::MAX - 1);
    assert_eq!(median_of_sorted(&vec![42]), 42);
}

#[test]
fn median_latency_of_timed_operation() {
    let op = || {
        let start = Instant::now();
        while start.elapsed() < Duration::from_millis(2) {}
    };
    let m = median_latency_nanos(&op, 5);
    assert!(m >= 2_000_000);
    assert!(m < 1_000_000_000);
}

#[test]
fn calibrated_effort_hits_target() {
    let target = Duration::from_millis(20);
    let work = |e: u32| int_work(e);
    for _ in 0..5 {
        int_work(5_000_000);
    }
    // the median of several independent calibrations, as the estimate is noisy
    let mut efforts: Vec<u32> = (0..5).map(|_| calibrate_work(&work, target, 5_000_000, 5)).collect();
    efforts.sort();
    let effort = efforts[2];
    assert!(effort > 0);
    let measured = median_latency_nanos(&|| int_work(effort), 9) as f64;
    let rel = (measured - 20_000_000.0).abs() / 20_000_000.0;
    assert!(rel < 0.15, "effort={effort}, measured={measured}");
}

#[test]
fn uniform_index_first_observations() {
    assert_eq!(uniform_observation_index(10, 0), 1);
    assert_eq!(uniform_observation_index(10, 1), 199);
    assert_eq!(uniform_observation_index(10, 2), 11);
    assert_eq!(uniform_observation_index(10, 3), 189);
}

#[test]
fn uniform_index_covers_every_numerator_once() {
    let n = 3u64;
    let mut seen: Vec<u64> = (0..2 * n * n - 1).map(|i| uniform_observation_index(n, i)).collect();
    seen.sort();
    assert_eq!(seen, (1..2 * n * n).collect::<Vec<u64>>());
}

#[test]
fn uniform_sample_sizes() {
    assert_eq!(uniform_sample_size(0), None);
    assert_eq!(uniform_sample_size(1), Some(1));
    assert_eq!(uniform_sample_size(10), Some(199));
    assert_eq!(uniform_sample_size(3_037_000_499), Some(2 * 3_037_000_499u64 * 3_037_000_499 - 1));
    assert_eq!(uniform_sample_size(3_037_000_500), None);
    assert_eq!(uniform_sample_size(u64::MAX), None);
}
