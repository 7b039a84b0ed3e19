use matrix_rain_core::{parse_charset, parse_color, parse_speed, CharacterSet, ColorScheme, RainSpeed};

#[test]
fn test_charset_parsing() {
    assert!(matches!(
        parse_charset("japanese"),
        Ok(CharacterSet::Japanese)
    ));
    assert!(matches!(parse_charset("jp"), Ok(CharacterSet::Japanese)));
    assert!(matches!(parse_charset("hindi"), Ok(CharacterSet::Hindi)));
    assert!(matches!(parse_charset("mixed"), Ok(CharacterSet::Mixed)));
    assert!(matches!(parse_charset("mix"), Ok(CharacterSet::Mixed)));
    assert!(parse_charset("invalid").is_err());
}

#[test]
fn test_color_parsing() {
    assert!(matches!(
        parse_color("matrix-green"),
        Ok(ColorScheme::MatrixGreen)
    ));
    assert!(matches!(parse_color("green"), Ok(ColorScheme::MatrixGreen)));
    assert!(matches!(parse_color("purple"), Ok(ColorScheme::Purple)));
    assert!(parse_color("invalid").is_err());
}

#[test]
fn test_speed_parsing() {
    assert!(matches!(parse_speed("medium"), Ok(RainSpeed::Medium)));
    assert!(matches!(parse_speed("m"), Ok(RainSpeed::Medium)));
    assert!(matches!(parse_speed("fast"), Ok(RainSpeed::Fast)));
    assert!(parse_speed("invalid").is_err());
}

#[test]
fn test_parsing_is_case_insensitive() {
    // Mixed-case selectors go through the case folding; these would all
    // fail if the input were matched as-is.
    assert!(matches!(
        parse_charset("JAPANESE"),
        Ok(CharacterSet::Japanese)
    ));
    assert!(matches!(parse_charset("Korean"), Ok(CharacterSet::Korean)));
    assert!(matches!(parse_color("Matrix-Green"), Ok(ColorScheme::MatrixGreen)));
    assert!(matches!(parse_speed("VS"), Ok(RainSpeed::VerySlow)));
    assert!(matches!(parse_speed("Very-Fast"), Ok(RainSpeed::VeryFast)));
}

#[test]
fn test_parse_error_carries_input() {
    let err = parse_charset("Klingon").unwrap_err();
    assert_eq!(err.input, "Klingon");
    let err = parse_color("plaid").unwrap_err();
    assert_eq!(err.input, "plaid");
    let err = parse_speed("warp9").unwrap_err();
    assert_eq!(err.input, "warp9");
}
