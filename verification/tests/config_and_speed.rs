use matrix_rain_core::{CharacterSet, ColorScheme, RainSpeed, ScreenSaverConfig};

#[test]
fn test_default_config() {
    let config = ScreenSaverConfig::default();
    assert_eq!(config.character_set, CharacterSet::Japanese);
    assert_eq!(config.color_scheme, ColorScheme::MatrixGreen);
    assert_eq!(config.speed, RainSpeed::Medium);
}

#[test]
fn mod_test_config_creation() {
    let config = ScreenSaverConfig::new(
        CharacterSet::Korean,
        ColorScheme::DarkBlue,
        RainSpeed::Fast,
        2560,
        1440,
    );
    assert_eq!(config.character_set, CharacterSet::Korean);
    assert_eq!(config.color_scheme, ColorScheme::DarkBlue);
    assert_eq!(config.speed, RainSpeed::Fast);
}

#[test]
fn lib_test_config_creation() {
    let config = ScreenSaverConfig::default();
    assert_eq!(config.character_set, CharacterSet::Japanese);
    assert_eq!(config.speed, RainSpeed::Medium);
}

#[test]
fn test_speed_intervals() {
    let very_slow = RainSpeed::VerySlow.update_interval_ms();
    let slow = RainSpeed::Slow.update_interval_ms();
    let medium = RainSpeed::Medium.update_interval_ms();
    let fast = RainSpeed::Fast.update_interval_ms();
    let very_fast = RainSpeed::VeryFast.update_interval_ms();

    // Slower speeds should have longer intervals
    assert!(very_slow > slow);
    assert!(slow > medium);
    assert!(medium > fast);
    assert!(fast > very_fast);
}

#[test]
fn test_speed_multipliers() {
    let very_slow = RainSpeed::VerySlow.speed_multiplier_milli();
    let slow = RainSpeed::Slow.speed_multiplier_milli();
    let medium = RainSpeed::Medium.speed_multiplier_milli();
    let fast = RainSpeed::Fast.speed_multiplier_milli();
    let very_fast = RainSpeed::VeryFast.speed_multiplier_milli();

    // Faster speeds should have higher multipliers
    assert!(very_slow < slow);
    assert!(slow < medium);
    assert!(medium < fast);
    assert!(fast < very_fast);
}

#[test]
fn test_trail_lengths() {
    let very_slow = RainSpeed::VerySlow.max_trail_length();
    let slow = RainSpeed::Slow.max_trail_length();
    let medium = RainSpeed::Medium.max_trail_length();
    let fast = RainSpeed::Fast.max_trail_length();
    let very_fast = RainSpeed::VeryFast.max_trail_length();

    // Slower speeds should have longer trails
    assert!(very_slow > slow);
    assert!(slow > medium);
    assert!(medium > fast);
    assert!(fast > very_fast);
}

#[test]
fn test_all_speeds() {
    let speeds = RainSpeed::all_speeds();
    assert_eq!(speeds.len(), 5);
}

#[test]
fn test_default_speed() {
    assert_eq!(RainSpeed::default(), RainSpeed::Medium);
}

#[test]
fn test_medium_baseline() {
    // Medium is the 1.0x baseline, in thousandths
    assert_eq!(RainSpeed::Medium.speed_multiplier_milli(), 1000);
}

#[test]
fn test_exact_tier_constants() {
    assert_eq!(RainSpeed::VerySlow.update_interval_ms(), 150);
    assert_eq!(RainSpeed::VeryFast.update_interval_ms(), 15);
    assert_eq!(RainSpeed::VerySlow.speed_multiplier_milli(), 500);
    assert_eq!(RainSpeed::VeryFast.speed_multiplier_milli(), 2000);
    assert_eq!(RainSpeed::VerySlow.max_trail_length(), 30);
    assert_eq!(RainSpeed::VeryFast.max_trail_length(), 12);
}

#[test]
fn test_new_config_enables_background() {
    let config = ScreenSaverConfig::new(
        CharacterSet::Tamil,
        ColorScheme::Cyan,
        RainSpeed::Slow,
        800,
        600,
    );
    assert!(config.enable_background_layer);
    assert_eq!(config.screen_width, 800);
    assert_eq!(config.screen_height, 600);
}
