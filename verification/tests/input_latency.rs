use telemetry_core::latency::percentile;
use telemetry_core::latency::InputLatencyMeasurer;
use telemetry_core::latency::LatencyStats;

#[test]
fn nearest_rank_percentiles_of_five_sorted_samples() {
    let mut measurer = InputLatencyMeasurer::new();
    for sample in [10, 20, 30, 40, 50] {
        measurer.add_measurement(sample);
    }
    let stats = measurer.get_stats();
    assert_eq!(stats.count, 5);
    // floor(5 * 0.5) = 2 -> 30; floor(5 * 0.95) = 4 -> 50; floor(5 * 0.99) = 4 -> 50.
    assert_eq!(stats.p50, 30);
    assert_eq!(stats.p95, 50);
    assert_eq!(stats.p99, 50);
    assert_eq!(stats.min, 10);
    assert_eq!(stats.max, 50);
    assert_eq!(stats.avg, 30);
}

#[test]
fn percentile_indexes_the_sorted_vector() {
    let sorted = vec![10u64, 20, 30, 40, 50];
    assert_eq!(percentile(&sorted, 50), 30);
    assert_eq!(percentile(&sorted, 95), 50);
    assert_eq!(percentile(&sorted, 99), 50);
    assert_eq!(percentile(&sorted, 0), 10);
    assert_eq!(percentile(&sorted, 100), 50);
}

#[test]
fn window_evicts_down_to_the_last_thousand() {
    let mut measurer = InputLatencyMeasurer::new();
    for value in 1..=1005u64 {
        measurer.add_measurement(value);
    }
    let stats = measurer.get_stats();
    assert_eq!(stats.count, 1000);
    assert_eq!(stats.min, 6);
    assert_eq!(stats.max, 1005);
}

#[test]
fn sla_boundary_is_inclusive() {
    let mut measurer = InputLatencyMeasurer::new();
    measurer.add_measurement(200);
    let stats = measurer.get_stats();
    assert_eq!(stats.p95, 200);
    assert!(stats.meets_target(200));
    assert!(!stats.meets_target(199));
}

#[test]
fn unsorted_measurements_are_sorted_before_ranking() {
    let mut measurer = InputLatencyMeasurer::new();
    for sample in [40, 10, 50, 30, 20] {
        measurer.add_measurement(sample);
    }
    let stats = measurer.get_stats();
    assert_eq!(stats.p50, 30);
    assert_eq!(stats.min, 10);
    assert_eq!(stats.max, 50);
}

#[test]
fn mark_pair_records_the_elapsed_time() {
    let mut measurer = InputLatencyMeasurer::new();
    measurer.mark_input_start(1_000);
    measurer.mark_input_end(1_350);
    let stats = measurer.get_stats();
    assert_eq!(stats.count, 1);
    assert_eq!(stats.max, 350);
}

#[test]
fn unbalanced_end_mark_is_a_no_op() {
    let mut measurer = InputLatencyMeasurer::new();
    measurer.mark_input_end(5_000);
    assert_eq!(measurer.get_stats().count, 0);
}

#[test]
fn end_mark_before_start_reading_is_rejected() {
    let mut measurer = InputLatencyMeasurer::new();
    measurer.mark_input_start(2_000);
    measurer.mark_input_end(1_500);
    assert_eq!(measurer.get_stats().count, 0);
}

#[test]
fn empty_window_reports_the_all_zero_stats() {
    let measurer = InputLatencyMeasurer::new();
    let stats = measurer.get_stats();
    assert_eq!(stats, LatencyStats::default());
}

#[test]
fn reset_clears_measurements_and_pending_mark() {
    let mut measurer = InputLatencyMeasurer::new();
    measurer.mark_input_start(100);
    measurer.add_measurement(42);
    measurer.reset();
    assert_eq!(measurer.get_stats().count, 0);
    // The pending mark is gone, so an end mark no longer records anything.
    measurer.mark_input_end(900);
    assert_eq!(measurer.get_stats().count, 0);
}

#[test]
fn report_lists_every_statistic() {
    let mut measurer = InputLatencyMeasurer::new();
    for sample in [10, 20, 30, 40, 50] {
        measurer.add_measurement(sample);
    }
    let report = measurer.get_stats().format_report();
    let expected = "Input Latency Report (n=5)\n\
                    Average: 30ms\n\
                    Min: 10ms\n\
                    Max: 50ms\n\
                    P50: 30ms\n\
                    P95: 50ms\n\
                    P99: 50ms";
    assert_eq!(report, expected);
}
