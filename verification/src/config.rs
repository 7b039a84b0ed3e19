//! Overall configuration for the rain screensaver.

use vstd::prelude::*;
use crate::charset::CharacterSet;
use crate::colors::ColorScheme;
use crate::speed::RainSpeed;

verus! {

/// Main configuration for the rain screensaver. It parameterizes the engine
/// at construction and may be replaced wholesale while running.
#[derive(Clone, Copy, Debug, PartialEq, Eq, Structural)]
pub struct ScreenSaverConfig {
    /// The character set to use for the rain effect
    pub character_set: CharacterSet,
    /// The color scheme for the characters
    pub color_scheme: ColorScheme,
    /// The speed of the rain animation
    pub speed: RainSpeed,
    /// Screen width in pixels
    pub screen_width: u32,
    /// Screen height in pixels
    pub screen_height: u32,
    /// Whether the dimmer background depth layer is simulated and drawn
    pub enable_background_layer: bool,
}

impl ScreenSaverConfig {
    /// A well-formed configuration names a surface with positive area.
    pub open spec fn wf(self) -> bool {
        &&& self.screen_width >= 1
        &&& self.screen_height >= 1
    }

    /// Create a new configuration with specified parameters; the background
    /// depth layer starts enabled.
    pub fn new(
        character_set: CharacterSet,
        color_scheme: ColorScheme,
        speed: RainSpeed,
        screen_width: u32,
        screen_height: u32,
    ) -> (r: Self)
        ensures
            r.character_set == character_set,
            r.color_scheme == color_scheme,
            r.speed == speed,
            r.screen_width == screen_width,
            r.screen_height == screen_height,
            r.enable_background_layer == true,
    {
        Self {
            character_set,
            color_scheme,
            speed,
            screen_width,
            screen_height,
            enable_background_layer: true,
        }
    }
}

impl Default for ScreenSaverConfig {
    /// The default configuration: Japanese glyphs in Matrix green at medium
    /// speed on a 1920x1080 surface, with the background layer enabled.
    fn default() -> (r: Self)
        ensures
            r.character_set == CharacterSet::Japanese,
            r.color_scheme == ColorScheme::MatrixGreen,
            r.speed == RainSpeed::Medium,
            r.screen_width == 1920,
            r.screen_height == 1080,
            r.enable_background_layer == true,
            r.wf(),
    {
        Self {
            character_set: CharacterSet::Japanese,
            color_scheme: ColorScheme::MatrixGreen,
            speed: RainSpeed::Medium,
            screen_width: 1920,
            screen_height: 1080,
            enable_background_layer: true,
        }
    }
}

} // verus!
