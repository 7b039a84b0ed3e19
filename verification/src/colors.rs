//! Color schemes for the rain effect.
//!
//! A scheme maps a normalized position inside a trail (0 = head, 1000 = tail,
//! in thousandths) to an RGBA color: a bright white leader, then the scheme's
//! primary tone, then progressively darkened tones, with an alpha channel that
//! fades linearly towards the tail.

use vstd::prelude::*;

verus! {

/// Available color schemes.
#[derive(Clone, Copy, Debug, PartialEq, Eq, Structural)]
pub enum ColorScheme {
    /// Classic Matrix green
    MatrixGreen,
    /// Dark blue
    DarkBlue,
    /// Purple/Violet
    Purple,
    /// Orange/Amber
    Orange,
    /// Red
    Red,
    /// Cyan/Aqua
    Cyan,
    /// Yellow/Gold
    Yellow,
    /// Pink/Magenta
    Pink,
    /// White/Silver
    White,
    /// Lime Green
    LimeGreen,
    /// Teal
    Teal,
}

impl ColorScheme {
    /// The brightest tone of the scheme, as (r, g, b) in 0–255.
    pub open spec fn spec_primary_color(self) -> (u8, u8, u8) {
        match self {
            ColorScheme::MatrixGreen => (0, 255, 70),
            ColorScheme::DarkBlue => (0, 150, 255),
            ColorScheme::Purple => (200, 100, 255),
            ColorScheme::Orange => (255, 165, 0),
            ColorScheme::Red => (255, 50, 50),
            ColorScheme::Cyan => (0, 255, 255),
            ColorScheme::Yellow => (255, 255, 0),
            ColorScheme::Pink => (255, 105, 180),
            ColorScheme::White => (255, 255, 255),
            ColorScheme::LimeGreen => (50, 255, 50),
            ColorScheme::Teal => (0, 200, 200),
        }
    }

    /// The mid-trail tone: each channel of the primary scaled to 60%.
    pub open spec fn spec_secondary_color(self) -> (u8, u8, u8) {
        let (r, g, b) = self.spec_primary_color();
        ((r * 6 / 10) as u8, (g * 6 / 10) as u8, (b * 6 / 10) as u8)
    }

    /// The fading-tail tone: each channel of the primary scaled to 30%.
    pub open spec fn spec_tertiary_color(self) -> (u8, u8, u8) {
        let (r, g, b) = self.spec_primary_color();
        ((r * 3 / 10) as u8, (g * 3 / 10) as u8, (b * 3 / 10) as u8)
    }

    /// The (r, g, b) tone drawn at a normalized trail position (thousandths):
    /// a white leader below 50, the primary tone below 150, the secondary
    /// tone below 500, and the tertiary tone for the rest of the tail.
    pub open spec fn spec_tone_at(self, position_milli: u32) -> (u8, u8, u8) {
        if position_milli < 50 {
            (255, 255, 255)
        } else if position_milli < 150 {
            self.spec_primary_color()
        } else if position_milli < 500 {
            self.spec_secondary_color()
        } else {
            self.spec_tertiary_color()
        }
    }

    /// The alpha channel at a normalized trail position, in thousandths:
    /// fully opaque below 100, then fading linearly so that the alpha reaches
    /// 0 exactly at the tail end (position 1000).
    pub open spec fn spec_alpha_at(position_milli: u32) -> u16
        recommends
            position_milli <= 1000,
    {
        if position_milli < 100 {
            1000
        } else {
            (1000 - (position_milli - 100) * 1000 / 900) as u16
        }
    }

    /// Get the primary color RGB values (0-255)
    /// Returns (r, g, b) for the brightest/newest character
    pub fn get_primary_color(&self) -> (c: (u8, u8, u8))
        ensures
            c == self.spec_primary_color(),
    {
        match self {
            ColorScheme::MatrixGreen => (0, 255, 70),
            ColorScheme::DarkBlue => (0, 150, 255),
            ColorScheme::Purple => (200, 100, 255),
            ColorScheme::Orange => (255, 165, 0),
            ColorScheme::Red => (255, 50, 50),
            ColorScheme::Cyan => (0, 255, 255),
            ColorScheme::Yellow => (255, 255, 0),
            ColorScheme::Pink => (255, 105, 180),
            ColorScheme::White => (255, 255, 255),
            ColorScheme::LimeGreen => (50, 255, 50),
            ColorScheme::Teal => (0, 200, 200),
        }
    }

    /// Get the secondary color RGB values (0-255)
    /// Returns (r, g, b) for mid-trail characters, darkened by about 40%
    pub fn get_secondary_color(&self) -> (c: (u8, u8, u8))
        ensures
            c == self.spec_secondary_color(),
    {
        let (r, g, b) = self.get_primary_color();
        (
            (r as u32 * 6 / 10) as u8,
            (g as u32 * 6 / 10) as u8,
            (b as u32 * 6 / 10) as u8,
        )
    }

    /// Get the tertiary color RGB values (0-255)
    /// Returns (r, g, b) for oldest/fading characters, darkened by about 70%
    pub fn get_tertiary_color(&self) -> (c: (u8, u8, u8))
        ensures
            c == self.spec_tertiary_color(),
    {
        let (r, g, b) = self.get_primary_color();
        (
            (r as u32 * 3 / 10) as u8,
            (g as u32 * 3 / 10) as u8,
            (b as u32 * 3 / 10) as u8,
        )
    }

    /// Get the color and alpha for a normalized trail position, given in
    /// thousandths of the trail (0 = head, 1000 = tail). Returns
    /// (r, g, b, alpha_milli) with RGB in 0-255 and alpha in 0-1000.
    pub fn get_color_with_alpha(&self, position_milli: u32) -> (c: (u8, u8, u8, u16))
        requires
            position_milli <= 1000,
        ensures
            (c.0, c.1, c.2) == self.spec_tone_at(position_milli),
            c.3 == ColorScheme::spec_alpha_at(position_milli),
            c.3 <= 1000,
    {
        let (r, g, b) = if position_milli < 50 {
            // Leading character is bright white for that classic look
            (255, 255, 255)
        } else if position_milli < 150 {
            self.get_primary_color()
        } else if position_milli < 500 {
            self.get_secondary_color()
        } else {
            self.get_tertiary_color()
        };
        let alpha: u16 = if position_milli < 100 {
            1000
        } else {
            (1000 - (position_milli - 100) * 1000 / 900) as u16
        };
        (r, g, b, alpha)
    }

    /// Get all available color schemes
    pub fn all_schemes() -> (r: Vec<ColorScheme>)
        ensures
            r@ == seq![
                ColorScheme::MatrixGreen,
                ColorScheme::DarkBlue,
                ColorScheme::Purple,
                ColorScheme::Orange,
                ColorScheme::Red,
                ColorScheme::Cyan,
                ColorScheme::Yellow,
                ColorScheme::Pink,
                ColorScheme::White,
                ColorScheme::LimeGreen,
                ColorScheme::Teal,
            ],
    {
        let mut v: Vec<ColorScheme> = Vec::new();
        v.push(ColorScheme::MatrixGreen);
        v.push(ColorScheme::DarkBlue);
        v.push(ColorScheme::Purple);
        v.push(ColorScheme::Orange);
        v.push(ColorScheme::Red);
        v.push(ColorScheme::Cyan);
        v.push(ColorScheme::Yellow);
        v.push(ColorScheme::Pink);
        v.push(ColorScheme::White);
        v.push(ColorScheme::LimeGreen);
        v.push(ColorScheme::Teal);
        proof {
            assert(v@ =~= seq![
                ColorScheme::MatrixGreen,
                ColorScheme::DarkBlue,
                ColorScheme::Purple,
                ColorScheme::Orange,
                ColorScheme::Red,
                ColorScheme::Cyan,
                ColorScheme::Yellow,
                ColorScheme::Pink,
                ColorScheme::White,
                ColorScheme::LimeGreen,
                ColorScheme::Teal,
            ]);
        }
        v
    }
}

impl Default for ColorScheme {
    /// The default scheme is the classic Matrix green.
    fn default() -> (r: Self)
        ensures
            r == ColorScheme::MatrixGreen,
    {
        ColorScheme::MatrixGreen
    }
}

} // verus!
