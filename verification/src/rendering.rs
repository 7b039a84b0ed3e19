//! Colors, drawable glyph records, and the abstract render sink.
//!
//! The engine never draws pixels itself: it produces an ordered batch of
//! `RenderChar` records and hands the batch to a `Renderer` implementation
//! owned by the caller (a terminal, a GPU canvas, or a test double).

use vstd::prelude::*;

verus! {

/// An RGBA color. Channels are 0-255; the alpha channel is kept in
/// thousandths of full opacity (0 = transparent, 1000 = opaque).
#[derive(Clone, Copy, Debug, PartialEq, Eq, Structural)]
pub struct Color {
    /// Red component (0-255)
    pub r: u8,
    /// Green component (0-255)
    pub g: u8,
    /// Blue component (0-255)
    pub b: u8,
    /// Alpha component in thousandths (0-1000)
    pub a_milli: u16,
}

/// One channel scaled down by a factor in thousandths.
fn channel_scale(v: u8, f: u16) -> (r: u8)
    requires
        f <= 1000,
    ensures
        r == v * f / 1000,
{
    proof {
        assert((v as u32) * (f as u32) <= 255 * 1000) by (nonlinear_arith)
            requires
                v <= 255,
                f <= 1000,
        ;
    }
    let p: u32 = (v as u32) * (f as u32);
    (p / 1000) as u8
}

/// One channel moved towards 255 by a factor in thousandths.
fn channel_lighten(v: u8, f: u16) -> (r: u8)
    requires
        f <= 1000,
    ensures
        r == v + (255 - v) * f / 1000,
{
    let d: u32 = 255 - (v as u32);
    proof {
        assert(d * (f as u32) <= d * 1000) by (nonlinear_arith)
            requires
                f <= 1000,
        ;
    }
    let p: u32 = d * (f as u32);
    ((v as u32) + p / 1000) as u8
}

impl Color {
    /// A well-formed color's alpha does not exceed full opacity.
    pub open spec fn wf(self) -> bool {
        self.a_milli <= 1000
    }

    /// The alpha that `rgba` stores for a requested value: clamped to full
    /// opacity.
    pub open spec fn spec_clamp_alpha(a_milli: u16) -> u16 {
        if a_milli > 1000 {
            1000
        } else {
            a_milli
        }
    }

    /// Create a new color with full opacity.
    pub fn rgb(r: u8, g: u8, b: u8) -> (c: Color)
        ensures
            c == (Color { r, g, b, a_milli: 1000u16 }),
            c.wf(),
    {
        Color { r, g, b, a_milli: 1000 }
    }

    /// Create a new color with the specified alpha, clamped to full opacity.
    pub fn rgba(r: u8, g: u8, b: u8, a_milli: u16) -> (c: Color)
        ensures
            c == (Color { r, g, b, a_milli: Color::spec_clamp_alpha(a_milli) }),
            c.wf(),
    {
        let a = if a_milli > 1000 {
            1000
        } else {
            a_milli
        };
        Color { r, g, b, a_milli: a }
    }

    /// Create a color from an RGB tuple, fully opaque.
    pub fn from_rgb_tuple(rgb: (u8, u8, u8)) -> (c: Color)
        ensures
            c == (Color { r: rgb.0, g: rgb.1, b: rgb.2, a_milli: 1000u16 }),
            c.wf(),
    {
        Color::rgb(rgb.0, rgb.1, rgb.2)
    }

    /// Create a color from an RGBA tuple; the alpha is clamped to full
    /// opacity.
    pub fn from_rgba_tuple(rgba: (u8, u8, u8, u16)) -> (c: Color)
        ensures
            c == (Color {
                r: rgba.0,
                g: rgba.1,
                b: rgba.2,
                a_milli: Color::spec_clamp_alpha(rgba.3),
            }),
            c.wf(),
    {
        Color::rgba(rgba.0, rgba.1, rgba.2, rgba.3)
    }

    /// Darken the color by a factor in thousandths (0 = black, 1000 = no
    /// change); factors above 1000 are clamped. The alpha is kept.
    pub fn darken(&self, factor_milli: u16) -> (c: Color)
        ensures
            c.r == self.r * Color::spec_clamp_alpha(factor_milli) / 1000,
            c.g == self.g * Color::spec_clamp_alpha(factor_milli) / 1000,
            c.b == self.b * Color::spec_clamp_alpha(factor_milli) / 1000,
            c.a_milli == self.a_milli,
    {
        let f = if factor_milli > 1000 {
            1000u16
        } else {
            factor_milli
        };
        Color {
            r: channel_scale(self.r, f),
            g: channel_scale(self.g, f),
            b: channel_scale(self.b, f),
            a_milli: self.a_milli,
        }
    }

    /// Lighten the color towards white by a factor in thousandths (0 = no
    /// change, 1000 = white); factors above 1000 are clamped. The alpha is
    /// kept.
    pub fn lighten(&self, factor_milli: u16) -> (c: Color)
        ensures
            c.r == self.r + (255 - self.r) * Color::spec_clamp_alpha(factor_milli) / 1000,
            c.g == self.g + (255 - self.g) * Color::spec_clamp_alpha(factor_milli) / 1000,
            c.b == self.b + (255 - self.b) * Color::spec_clamp_alpha(factor_milli) / 1000,
            c.a_milli == self.a_milli,
    {
        let f = if factor_milli > 1000 {
            1000u16
        } else {
            factor_milli
        };
        Color {
            r: channel_lighten(self.r, f),
            g: channel_lighten(self.g, f),
            b: channel_lighten(self.b, f),
            a_milli: self.a_milli,
        }
    }

    /// The same color with a different alpha, clamped to full opacity.
    pub fn with_alpha(&self, a_milli: u16) -> (c: Color)
        ensures
            c == (Color {
                r: self.r,
                g: self.g,
                b: self.b,
                a_milli: Color::spec_clamp_alpha(a_milli),
            }),
            c.wf(),
    {
        Color::rgba(self.r, self.g, self.b, a_milli)
    }

    /// Opaque black.
    pub fn black() -> (c: Color)
        ensures
            c == (Color { r: 0u8, g: 0u8, b: 0u8, a_milli: 1000u16 }),
    {
        Color { r: 0, g: 0, b: 0, a_milli: 1000 }
    }

    /// Opaque white.
    pub fn white() -> (c: Color)
        ensures
            c == (Color { r: 255u8, g: 255u8, b: 255u8, a_milli: 1000u16 }),
    {
        Color { r: 255, g: 255, b: 255, a_milli: 1000 }
    }

    /// The classic Matrix green.
    pub fn matrix_green() -> (c: Color)
        ensures
            c == (Color { r: 0u8, g: 255u8, b: 70u8, a_milli: 1000u16 }),
    {
        Color { r: 0, g: 255, b: 70, a_milli: 1000 }
    }
}

impl Default for Color {
    /// The default color is opaque black.
    fn default() -> (c: Self)
        ensures
            c == (Color { r: 0u8, g: 0u8, b: 0u8, a_milli: 1000u16 }),
    {
        Color::black()
    }
}

/// A glyph to be drawn at a specific pixel position. Pixel coordinates and
/// the font size are kept in thousandths of a pixel.
#[derive(Clone, Copy, Debug, PartialEq, Eq, Structural)]
pub struct RenderChar {
    /// The character to draw
    pub character: char,
    /// X position in thousandths of a pixel
    pub x_milli: u64,
    /// Y position in thousandths of a pixel
    pub y_milli: u64,
    /// Color of the character
    pub color: Color,
    /// Font size in thousandths of a point
    pub font_size_milli: u32,
}

/// The abstract render sink for the rain effect. A frame is one `clear`,
/// one ordered batch of glyphs, and one `present`; implementations own the
/// actual pixel or cell output.
pub trait Renderer {
    /// Clear the surface with the specified background color.
    fn clear(&mut self, color: Color);

    /// Draw a single glyph.
    fn draw_char(&mut self, render_char: &RenderChar);

    /// Draw a batch of glyphs, in order (earlier records are drawn first,
    /// so later records land on top).
    fn draw_chars(&mut self, chars: &[RenderChar]) {
        let mut i: usize = 0;
        while i < chars.len()
            decreases chars@.len() - i,
        {
            self.draw_char(&chars[i]);
            i = i + 1;
        }
    }

    /// Present the finished frame.
    fn present(&mut self);

    /// The surface width in pixels.
    fn width(&self) -> u32;

    /// The surface height in pixels.
    fn height(&self) -> u32;
}

} // verus!
