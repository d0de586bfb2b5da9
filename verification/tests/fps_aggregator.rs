use telemetry_core::fps::FpsAggregator;
use telemetry_core::fps::FpsSnapshot;
use telemetry_core::fps::PerformanceScore;
use telemetry_core::fps::Recommendation;

#[test]
fn record_tracks_current_min_max_and_exact_mean() {
    let mut aggregator = FpsAggregator::new();
    // 58.0, 61.0 and 60.0 fps in milli-fps.
    aggregator.record(58_000);
    aggregator.record(61_000);
    aggregator.record(60_000);
    let snapshot = aggregator.snapshot();
    assert_eq!(snapshot.current, 60_000);
    assert_eq!(snapshot.min, 58_000);
    assert_eq!(snapshot.max, 61_000);
    // (58000 + 61000 + 60000) / 3 == 59666 (floor of the arithmetic mean).
    assert_eq!(snapshot.average, 59_666);
    assert_eq!(snapshot.sample_count, 3);
}

#[test]
fn min_and_max_bracket_the_average_after_every_record() {
    let mut aggregator = FpsAggregator::new();
    for sample in [30_000u64, 45_500, 12_345, 99_999, 60_000, 60_001] {
        aggregator.record(sample);
        let snapshot = aggregator.snapshot();
        assert!(snapshot.min <= snapshot.average);
        assert!(snapshot.average <= snapshot.max);
    }
}

#[test]
fn min_stays_unset_until_a_sample_arrives() {
    let mut aggregator = FpsAggregator::new();
    aggregator.record(40_000);
    aggregator.record(50_000);
    let snapshot = aggregator.snapshot();
    // The first sample left the unset state; the larger one did not lower it.
    assert_eq!(snapshot.min, 40_000);
    assert_eq!(snapshot.max, 50_000);
}

#[test]
fn reset_yields_the_all_zero_snapshot() {
    let mut aggregator = FpsAggregator::new();
    aggregator.record(61_000);
    aggregator.add_memory_snapshot(120_000);
    aggregator.reset();
    let snapshot = aggregator.snapshot();
    assert_eq!(
        snapshot,
        FpsSnapshot { current: 0, min: 0, max: 0, average: 0, sample_count: 0 }
    );
}

#[test]
fn fresh_aggregator_reports_the_all_zero_snapshot() {
    let aggregator = FpsAggregator::new();
    let snapshot = aggregator.snapshot();
    assert_eq!(
        snapshot,
        FpsSnapshot { current: 0, min: 0, max: 0, average: 0, sample_count: 0 }
    );
}

fn aggregator_with_mean(milli_fps: u64) -> FpsAggregator {
    let mut aggregator = FpsAggregator::new();
    aggregator.record(milli_fps);
    aggregator
}

#[test]
fn evaluate_uses_the_four_tier_boundaries() {
    assert_eq!(aggregator_with_mean(55_000).evaluate(), PerformanceScore::Excellent);
    assert_eq!(aggregator_with_mean(54_999).evaluate(), PerformanceScore::Good);
    assert_eq!(aggregator_with_mean(45_000).evaluate(), PerformanceScore::Good);
    assert_eq!(aggregator_with_mean(44_999).evaluate(), PerformanceScore::Fair);
    assert_eq!(aggregator_with_mean(30_000).evaluate(), PerformanceScore::Fair);
    assert_eq!(aggregator_with_mean(29_999).evaluate(), PerformanceScore::Poor);
}

#[test]
fn score_colors_and_labels_are_fixed_policy() {
    assert_eq!(PerformanceScore::Excellent.color(), "#4CAF50");
    assert_eq!(PerformanceScore::Good.color(), "#8BC34A");
    assert_eq!(PerformanceScore::Fair.color(), "#FF9800");
    assert_eq!(PerformanceScore::Poor.color(), "#f44336");
    assert_eq!(PerformanceScore::Excellent.text(), "excellent");
    assert_eq!(PerformanceScore::Poor.text(), "poor");
}

#[test]
fn coarse_classifier_uses_only_two_boundaries() {
    assert_eq!(aggregator_with_mean(55_000).get_performance_color(), "#4CAF50");
    assert_eq!(aggregator_with_mean(45_000).get_performance_color(), "#FF9800");
    assert_eq!(aggregator_with_mean(30_000).get_performance_color(), "#FF9800");
    assert_eq!(aggregator_with_mean(29_999).get_performance_color(), "#f44336");
    assert_eq!(aggregator_with_mean(55_000).get_performance_text(), "good");
    assert_eq!(aggregator_with_mean(45_000).get_performance_text(), "fair");
    assert_eq!(aggregator_with_mean(29_999).get_performance_text(), "poor");
}

#[test]
fn low_frame_rate_fires_the_load_advisory() {
    let mut aggregator = FpsAggregator::new();
    aggregator.record(20_000);
    let codes = aggregator.recommendation_codes();
    assert_eq!(codes, vec![Recommendation::ReduceObjectCount]);
}

#[test]
fn wide_spread_fires_the_jitter_advisory() {
    let mut aggregator = FpsAggregator::new();
    aggregator.record(40_000);
    aggregator.record(61_000);
    let codes = aggregator.recommendation_codes();
    assert_eq!(codes, vec![Recommendation::InvestigateJitter]);
}

#[test]
fn high_memory_mean_fires_the_memory_advisory() {
    let mut aggregator = FpsAggregator::new();
    aggregator.record(60_000);
    aggregator.add_memory_snapshot(150_000);
    aggregator.add_memory_snapshot(90_000);
    // Mean memory is 120 MB, above the 100 MB limit.
    let codes = aggregator.recommendation_codes();
    assert_eq!(codes, vec![Recommendation::ReduceMemoryUse]);
}

#[test]
fn all_applicable_rules_fire_in_fixed_order() {
    let mut aggregator = FpsAggregator::new();
    aggregator.record(4_000);
    aggregator.record(29_000);
    aggregator.add_memory_snapshot(200_000);
    let codes = aggregator.recommendation_codes();
    assert_eq!(
        codes,
        vec![
            Recommendation::ReduceObjectCount,
            Recommendation::InvestigateJitter,
            Recommendation::ReduceMemoryUse,
        ]
    );
}

#[test]
fn quiet_session_gets_the_fallback_advisory() {
    let mut aggregator = FpsAggregator::new();
    aggregator.record(60_000);
    aggregator.add_memory_snapshot(50_000);
    let codes = aggregator.recommendation_codes();
    assert_eq!(codes, vec![Recommendation::PerformingWell]);
    let texts = aggregator.recommendations();
    assert_eq!(texts, vec!["performance is good".to_string()]);
}

#[test]
fn memory_window_keeps_the_most_recent_snapshots() {
    let mut aggregator = FpsAggregator::new();
    aggregator.record(60_000);
    // 100 low snapshots, then 100 high ones: only the high window remains.
    for _ in 0..100 {
        aggregator.add_memory_snapshot(10_000);
    }
    for _ in 0..100 {
        aggregator.add_memory_snapshot(150_000);
    }
    let codes = aggregator.recommendation_codes();
    assert_eq!(codes, vec![Recommendation::ReduceMemoryUse]);
}
