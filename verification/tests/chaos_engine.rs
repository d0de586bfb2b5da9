use telemetry_core::chaos::ChaosEngine;
use telemetry_core::chaos::ChaosEvent;
use telemetry_core::chaos::ChaosEventKind;
use telemetry_core::chaos::DistortionKind;

#[test]
fn batch_spawn_fills_the_log_and_counts_everything() {
    let mut engine = ChaosEngine::new(3, 7);
    engine.spawn_batch_events(1000, 0);
    assert_eq!(engine.event_count(), 128);
    assert_eq!(engine.total_spawned(), 1000);
    let stats = engine.event_stats(0);
    assert_eq!(stats.total, 128);
    let mut counted = 0;
    for (_, count) in stats.by_type.iter() {
        counted += count;
    }
    assert_eq!(counted, 128);
}

#[test]
fn all_time_counter_survives_eviction() {
    let mut engine = ChaosEngine::new(3, 7);
    engine.spawn_batch_events(1000, 0);
    // 1000 spawned, only the most recent 128 retained: the rate over one
    // second (no start mark) counts all 1000, in milli-events per second.
    let stats = engine.event_stats(123);
    assert_eq!(stats.events_per_second_milli, 1_000_000);
}

#[test]
fn small_batches_accumulate_without_eviction() {
    let mut engine = ChaosEngine::new(5, 99);
    engine.spawn_batch_events(10, 0);
    engine.spawn_batch_events(20, 1);
    assert_eq!(engine.event_count(), 30);
    assert_eq!(engine.total_spawned(), 30);
}

#[test]
fn new_engine_clamps_intensity_into_range() {
    assert_eq!(ChaosEngine::new(0, 1).current_intensity(), 1);
    assert_eq!(ChaosEngine::new(6, 1).current_intensity(), 6);
    assert_eq!(ChaosEngine::new(200, 1).current_intensity(), 10);
}

#[test]
fn tick_is_a_no_op_while_idle() {
    let mut engine = ChaosEngine::new(4, 2);
    assert!(!engine.active());
    engine.tick(0);
    assert_eq!(engine.event_count(), 0);
    engine.start(0);
    assert!(engine.active());
    engine.tick(1);
    assert_eq!(engine.event_count(), 4);
    engine.stop();
    assert!(!engine.active());
    engine.tick(2);
    assert_eq!(engine.event_count(), 4);
}

#[test]
fn set_intensity_clamps_into_range() {
    let mut engine = ChaosEngine::new(5, 2);
    engine.set_intensity(0);
    assert_eq!(engine.current_intensity(), 1);
    engine.set_intensity(7);
    assert_eq!(engine.current_intensity(), 7);
    engine.set_intensity(99);
    assert_eq!(engine.current_intensity(), 10);
}

#[test]
fn extreme_test_activates_and_floods_the_log() {
    let mut engine = ChaosEngine::new(1, 42);
    engine.run_extreme_test(0);
    assert_eq!(engine.current_intensity(), 3);
    assert!(engine.active());
    assert_eq!(engine.event_count(), 128);
    assert_eq!(engine.total_spawned(), 1000);
    // One more tick spawns 3 events: the extreme test set intensity 3 and
    // activated the engine.
    engine.tick(5);
    assert_eq!(engine.total_spawned(), 1003);
}

#[test]
fn add_event_appends_and_evicts_like_any_push() {
    let mut engine = ChaosEngine::new(1, 0);
    for i in 0..130u64 {
        engine.add_event(ChaosEvent {
            kind: ChaosEventKind::TimeWarp { speed_multiplier_milli: 1000 },
            timestamp_micros: i,
        });
    }
    assert_eq!(engine.event_count(), 128);
    assert_eq!(engine.total_spawned(), 130);
    // The two oldest events were evicted.
    assert_eq!(engine.get_event(0).timestamp_micros, 2);
    assert_eq!(engine.get_event(127).timestamp_micros, 129);
    let stats = engine.event_stats(0);
    assert_eq!(stats.total, 128);
    assert_eq!(stats.by_type.len(), 1);
    assert_eq!(stats.by_type[0].1, 128);
}

#[test]
fn by_type_counts_are_sorted_descending() {
    let mut engine = ChaosEngine::new(1, 0);
    for _ in 0..5 {
        engine.add_event(ChaosEvent {
            kind: ChaosEventKind::UIGlitch { element_id: 1, severity_milli: 500 },
            timestamp_micros: 0,
        });
    }
    for _ in 0..9 {
        engine.add_event(ChaosEvent {
            kind: ChaosEventKind::InputCorruption { delay_ms: 10, noise_milli: 100 },
            timestamp_micros: 0,
        });
    }
    for _ in 0..2 {
        engine.add_event(ChaosEvent {
            kind: ChaosEventKind::VisualDistortion { kind: DistortionKind::Glitch },
            timestamp_micros: 0,
        });
    }
    let stats = engine.event_stats(0);
    assert_eq!(stats.total, 16);
    let counts: Vec<usize> = stats.by_type.iter().map(|pair| pair.1).collect();
    assert_eq!(counts, vec![9, 5, 2]);
    for window in stats.by_type.windows(2) {
        assert!(window[0].1 >= window[1].1);
    }
}

#[test]
fn event_rate_uses_the_marked_start_time() {
    let mut engine = ChaosEngine::new(1, 3);
    engine.start(1_000_000);
    engine.spawn_batch_events(50, 1_000_000);
    // 50 events over 2 seconds: 25 events/s, reported in milli-events/s.
    let stats = engine.event_stats(3_000_000);
    assert_eq!(stats.events_per_second_milli, 25_000);
}

#[test]
fn generated_events_stay_in_their_documented_ranges() {
    let mut engine = ChaosEngine::new(10, 1234);
    engine.spawn_batch_events(128, 77);
    for i in 0..engine.event_count() {
        let event = engine.get_event(i);
        assert_eq!(event.timestamp_micros, 77);
        match event.kind {
            ChaosEventKind::UIGlitch { element_id, severity_milli } => {
                assert!(element_id < 100);
                assert!(severity_milli < 1000);
            }
            ChaosEventKind::InputCorruption { delay_ms, noise_milli } => {
                assert!(delay_ms < 500);
                assert!(noise_milli < 1000);
            }
            ChaosEventKind::VisualDistortion { kind } => {
                assert_eq!(kind, DistortionKind::Glitch);
            }
            ChaosEventKind::TimeWarp { speed_multiplier_milli } => {
                assert!((1000..3000).contains(&speed_multiplier_milli));
            }
        }
    }
}

#[test]
fn display_strings_render_each_category() {
    let glitch = ChaosEvent {
        kind: ChaosEventKind::UIGlitch { element_id: 42, severity_milli: 730 },
        timestamp_micros: 0,
    };
    assert_eq!(
        glitch.get_display_string(),
        "ui glitch: chaos-element-42 (severity-milli: 730)"
    );
    let corruption = ChaosEvent {
        kind: ChaosEventKind::InputCorruption { delay_ms: 250, noise_milli: 5 },
        timestamp_micros: 0,
    };
    assert_eq!(
        corruption.get_display_string(),
        "input corruption: 250ms (noise-milli: 5)"
    );
    let distortion = ChaosEvent {
        kind: ChaosEventKind::VisualDistortion { kind: DistortionKind::Glitch },
        timestamp_micros: 0,
    };
    assert_eq!(distortion.get_display_string(), "visual distortion: glitch");
    let warp = ChaosEvent {
        kind: ChaosEventKind::TimeWarp { speed_multiplier_milli: 2500 },
        timestamp_micros: 0,
    };
    assert_eq!(warp.get_display_string(), "time warp: x2500 milli");
}

#[test]
fn same_seed_gives_the_same_event_stream() {
    let mut first = ChaosEngine::new(2, 555);
    let mut second = ChaosEngine::new(2, 555);
    first.spawn_batch_events(40, 9);
    second.spawn_batch_events(40, 9);
    let stats_first = first.event_stats(9);
    let stats_second = second.event_stats(9);
    assert_eq!(stats_first.total, stats_second.total);
    assert_eq!(stats_first.by_type, stats_second.by_type);
}
