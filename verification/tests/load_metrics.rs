use telemetry_core::loadreport::LoadMetrics;
use telemetry_core::numfmt::u64_to_string;

#[test]
fn total_load_time_spans_navigation_to_completion() {
    let metrics = LoadMetrics::new(1_000, 1_400, 2_800, 900, 5_000);
    assert_eq!(metrics.total_load_time, 1_800);
    assert_eq!(metrics.wasm_init_start, 0);
    assert_eq!(metrics.wasm_init_complete, 5_000);
}

#[test]
fn unfinished_load_falls_back_to_the_clock() {
    let metrics = LoadMetrics::new(1_000, 1_400, 0, 900, 2_345);
    assert_eq!(metrics.total_load_time, 2_345);
}

#[test]
fn load_target_boundary_is_exclusive() {
    let fast = LoadMetrics::new(0, 100, 2_999, 50, 3_500);
    assert!(fast.meets_load_target());
    let slow = LoadMetrics::new(0, 100, 3_000, 50, 3_500);
    assert!(!slow.meets_load_target());
}

#[test]
fn report_lists_the_derived_figures() {
    let metrics = LoadMetrics::new(1_000, 1_400, 2_800, 900, 5_000);
    let report = metrics.get_formatted_report();
    let expected = "=== initial load performance report ===\n\
                    DOM Content Loaded: 400ms\n\
                    First Contentful Paint: 900ms\n\
                    Page Load Complete: 1800ms\n\
                    WASM Init Time: 5000ms\n\
                    Total Load Time: 1800ms\n\
                    \n\
                    target on a 4G connection: < 3000ms\n\
                    current status: target met";
    assert_eq!(report, expected);
}

#[test]
fn report_announces_a_missed_target() {
    let metrics = LoadMetrics::new(0, 10, 4_000, 5, 4_100);
    let report = metrics.get_formatted_report();
    assert!(report.ends_with("current status: target missed"));
}

#[test]
fn decimal_rendering_matches_standard_formatting() {
    assert_eq!(u64_to_string(0), "0");
    assert_eq!(u64_to_string(7), "7");
    assert_eq!(u64_to_string(1234567890), "1234567890");
    assert_eq!(u64_to_string(u64::MAX), format!("{}", u64::MAX));
}
