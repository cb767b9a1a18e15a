use voxtype_osd_gtk4::config::{config_path, effective_config, ConfigLookup, OsdConfig, Overrides};
use voxtype_osd_gtk4::exit::exit_result;
use voxtype_osd_gtk4::placement::OsdPosition;

fn sample(width: u32) -> OsdConfig<f32> {
    OsdConfig {
        width_px: width,
        height_px: 60,
        margin_px: 24,
        position: OsdPosition::TopRight,
        top_margin: 0.85,
        opacity: 0.9,
        waveform_gain: 8.0,
        peak_decay_db_per_sec: 12.0,
    }
}

fn none_given() -> Overrides<f32> {
    Overrides {
        width_px: None,
        height_px: None,
        margin_px: None,
        waveform_gain: None,
        peak_decay_db_per_sec: 6.0,
    }
}

#[test]
fn given_path_wins_over_default() {
    assert_eq!(config_path(Some("a.toml"), Some("b.toml")), Some("a.toml"));
    assert_eq!(config_path(None, Some("b.toml")), Some("b.toml"));
    assert_eq!(config_path(Some("a.toml"), None), Some("a.toml"));
    assert_eq!(config_path::<&str>(None, None), None);
}

#[test]
fn every_failed_lookup_means_defaults() {
    assert_eq!(ConfigLookup::NoPath.section_or(7), 7);
    assert_eq!(ConfigLookup::Unreadable.section_or(7), 7);
    assert_eq!(ConfigLookup::Malformed.section_or(7), 7);
    assert_eq!(ConfigLookup::Parsed(None).section_or(7), 7);
    assert_eq!(ConfigLookup::Parsed(Some(9)).section_or(7), 9);
}

#[test]
fn decay_rate_always_comes_from_the_command_line() {
    let config = effective_config(sample(400), ConfigLookup::Parsed(Some(sample(500))), none_given());
    let mut expected = sample(500);
    expected.peak_decay_db_per_sec = 6.0;
    assert!(config == expected);
}

#[test]
fn defaults_are_used_under_a_broken_file() {
    let config = effective_config(sample(400), ConfigLookup::Malformed, none_given());
    let mut expected = sample(400);
    expected.peak_decay_db_per_sec = 6.0;
    assert!(config == expected);
}

#[test]
fn command_line_wins_over_file() {
    let over = Overrides {
        width_px: Some(1),
        height_px: Some(2),
        margin_px: Some(3),
        waveform_gain: Some(14.0),
        peak_decay_db_per_sec: 4.5,
    };
    let config = effective_config(sample(400), ConfigLookup::Parsed(Some(sample(500))), over);
    assert_eq!(config.width_px, 1);
    assert_eq!(config.height_px, 2);
    assert_eq!(config.margin_px, 3);
    assert_eq!(config.waveform_gain, 14.0);
    assert_eq!(config.peak_decay_db_per_sec, 4.5);
    assert_eq!(config.position, OsdPosition::TopRight);
    assert_eq!(config.top_margin, 0.85);
    assert_eq!(config.opacity, 0.9);
}

#[test]
fn overrides_apply_once_and_again_alike() {
    let over = || Overrides { width_px: Some(640), ..none_given() };
    let once = sample(400).with_overrides(over());
    let twice = sample(400).with_overrides(over()).with_overrides(over());
    assert!(once == twice);
    assert_eq!(once.width_px, 640);
    assert_eq!(once.height_px, 60);
}

#[test]
fn exit_codes() {
    assert_eq!(exit_result(0), Ok(()));
    assert_eq!(exit_result(1), Err(1));
    assert_eq!(exit_result(255), Err(255));
}
