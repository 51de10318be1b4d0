use cloud_noise::settings::{CloudSettings, DisplayParameters};
use cloud_noise::volume::{bake, GenerationParameters};

#[test]
fn startup_state_has_defaults_and_sentinel() {
    let s = CloudSettings::new();
    assert_eq!(s.gen, GenerationParameters::default());
    assert_eq!(s.display, DisplayParameters::default());
    assert!(s.needs_rebuild);
    assert_eq!(s.bake_count, 0);
    assert_eq!(s.volume.data.len(), 32768);
    assert!(s.volume.data.iter().all(|&b| b == 0));
}

#[test]
fn dirty_coalescing_two_edits_one_bake() {
    let mut s = CloudSettings::new();
    s.tick();
    assert_eq!(s.bake_count, 1);

    // Two generation edits within the same tick: exactly one bake runs on
    // the next tick, from the values of the second edit.
    s.set_seed(5);
    s.set_seed(9);
    assert!(s.needs_rebuild);
    assert_eq!(s.bake_count, 1);
    s.tick();
    assert_eq!(s.bake_count, 2);
    assert!(!s.needs_rebuild);

    let expect = bake(&GenerationParameters { seed: 9, ..GenerationParameters::default() })
        .unwrap();
    assert_eq!(s.volume.data, expect.data);
}

#[test]
fn clean_tick_does_not_bake() {
    let mut s = CloudSettings::new();
    s.tick();
    assert_eq!(s.bake_count, 1);
    let before = s.volume.data.clone();
    s.tick();
    s.tick();
    assert_eq!(s.bake_count, 1);
    assert_eq!(s.volume.data, before);
}

#[test]
fn generation_edits_mark_dirty() {
    let mut s = CloudSettings::new();
    s.tick();
    assert!(!s.needs_rebuild);
    s.set_frequency_fp(2048);
    assert!(s.needs_rebuild);
    s.tick();
    assert!(!s.needs_rebuild);
    s.set_feature_point_count(32);
    assert!(s.needs_rebuild);
}

#[test]
fn display_edits_never_mark_dirty() {
    let mut s = CloudSettings::new();
    s.tick();
    assert!(!s.needs_rebuild);
    s.set_color_milli(500, 600, 700);
    s.set_density_multiplier_milli(4000);
    s.set_threshold_milli(300);
    s.set_absorption_milli(1500);
    s.set_steps(32);
    assert!(!s.needs_rebuild);
    assert_eq!(s.display.color_r_milli, 500);
    assert_eq!(s.display.density_multiplier_milli, 4000);
    assert_eq!(s.display.threshold_milli, 300);
    assert_eq!(s.display.absorption_milli, 1500);
    assert_eq!(s.display.steps, 32);
}

#[test]
fn edits_are_clamped_to_documented_ranges() {
    let mut s = CloudSettings::new();
    s.set_frequency_fp(99999);
    assert_eq!(s.gen.frequency_fp, 2560);
    s.set_frequency_fp(0);
    assert_eq!(s.gen.frequency_fp, 256);
    s.set_feature_point_count(1000);
    assert_eq!(s.gen.feature_point_count, 64);
    s.set_feature_point_count(0);
    assert_eq!(s.gen.feature_point_count, 4);
    s.set_steps(1000);
    assert_eq!(s.display.steps, 64);
    s.set_steps(0);
    assert_eq!(s.display.steps, 4);
    s.set_threshold_milli(5000);
    assert_eq!(s.display.threshold_milli, 1000);
}

#[test]
fn reset_restores_defaults_and_marks_dirty() {
    let mut s = CloudSettings::new();
    s.set_seed(42);
    s.set_frequency_fp(2000);
    s.set_steps(60);
    s.tick();
    assert!(!s.needs_rebuild);

    s.reset();
    assert_eq!(s.gen, GenerationParameters::default());
    assert_eq!(s.display, DisplayParameters::default());
    assert!(s.needs_rebuild);
}

#[test]
fn tick_uniform_carries_display_snapshot() {
    let mut s = CloudSettings::new();
    s.set_color_milli(100, 200, 300);
    s.set_density_multiplier_milli(7000);
    let u = s.tick();
    assert_eq!(u.color_r_milli, 100);
    assert_eq!(u.color_g_milli, 200);
    assert_eq!(u.color_b_milli, 300);
    assert_eq!(u.density_multiplier_milli, 7000);
    assert_eq!(u.threshold_milli, 200);
    assert_eq!(u.absorption_milli, 3000);
    assert_eq!(u.steps, 16);
}

#[test]
fn rebuild_uses_current_parameters() {
    let mut s = CloudSettings::new();
    s.set_seed(3);
    s.set_frequency_fp(1536);
    s.set_feature_point_count(8);
    s.tick();
    let expect = bake(&GenerationParameters {
        seed: 3,
        frequency_fp: 1536,
        feature_point_count: 8,
        resolution: 32,
    })
    .unwrap();
    assert_eq!(s.volume.data, expect.data);
}
