use telemetry_core::advisor::MapConfig;
use telemetry_core::advisor::ModeAdvisor;
use telemetry_core::advisor::RenderMode;

#[test]
fn recommend_uses_the_fixed_breakpoints() {
    assert_eq!(ModeAdvisor::recommend(0), RenderMode::DOM);
    assert_eq!(ModeAdvisor::recommend(1000), RenderMode::DOM);
    assert_eq!(ModeAdvisor::recommend(1001), RenderMode::Canvas);
    assert_eq!(ModeAdvisor::recommend(10000), RenderMode::Canvas);
    assert_eq!(ModeAdvisor::recommend(10001), RenderMode::WebGL);
}

#[test]
fn high_load_flag_has_its_own_breakpoint() {
    assert!(!ModeAdvisor::is_high_load(5000));
    assert!(ModeAdvisor::is_high_load(5001));
    // Independent of the mode breakpoints: still Canvas territory.
    assert_eq!(ModeAdvisor::recommend(5001), RenderMode::Canvas);
}

#[test]
fn mode_names_match_the_display_strings() {
    assert_eq!(RenderMode::DOM.as_str(), "DOM");
    assert_eq!(RenderMode::Canvas.as_str(), "Canvas");
    assert_eq!(RenderMode::WebGL.as_str(), "WebGL");
}

#[test]
fn config_defaults_match_the_session_start() {
    let config = MapConfig::default();
    assert_eq!(config.object_count, 1000);
    assert_eq!(config.render_mode, RenderMode::DOM);
    assert_eq!(config.animation_speed_milli, 1000);
    assert!(!config.auto_pan);
    assert!(config.show_fps);
}

#[test]
fn object_count_is_clamped_at_the_limit() {
    let mut config = MapConfig::default();
    config.set_object_count(250_000);
    assert_eq!(config.object_count, 100_000);
    config.set_object_count(42);
    assert_eq!(config.object_count, 42);
}

#[test]
fn animation_speed_is_clamped_into_its_range() {
    let mut config = MapConfig::default();
    config.set_animation_speed(50);
    assert_eq!(config.animation_speed_milli, 100);
    config.set_animation_speed(2_500);
    assert_eq!(config.animation_speed_milli, 2_500);
    config.set_animation_speed(90_000);
    assert_eq!(config.animation_speed_milli, 10_000);
}

#[test]
fn toggles_flip_only_their_own_flag() {
    let mut config = MapConfig::default();
    config.toggle_auto_pan();
    assert!(config.auto_pan);
    assert!(config.show_fps);
    config.toggle_fps_display();
    assert!(config.auto_pan);
    assert!(!config.show_fps);
    config.toggle_auto_pan();
    assert!(!config.auto_pan);
}

#[test]
fn set_render_mode_stores_the_mode() {
    let mut config = MapConfig::default();
    config.set_render_mode(RenderMode::WebGL);
    assert_eq!(config.render_mode, RenderMode::WebGL);
    assert_eq!(config.object_count, 1000);
}
