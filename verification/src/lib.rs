//! Core engine for a "digital rain" visual effect: columns of glyphs fall
//! down a surface, each dragging a fading trail behind its head. The engine
//! simulates two independent column layers (a bright foreground and a dimmer
//! background depth layer) and composes their visible glyphs into an ordered
//! draw list for an abstract render sink.
//!
//! All geometry, speeds and alpha values are kept in fixed-point milli-units
//! (thousandths of a cell, pixel or unit interval), so every simulation step
//! is exact integer arithmetic.

pub mod charset;
pub mod column;
pub mod colors;
pub mod config;
pub mod engine;
pub mod parse;
pub mod rendering;
pub mod rng;
pub mod speed;

pub use charset::CharacterSet;
pub use column::RainColumn;
pub use colors::ColorScheme;
pub use config::ScreenSaverConfig;
pub use engine::MatrixRain;
pub use parse::{parse_charset, parse_color, parse_speed, ParseError};
pub use rendering::{Color, RenderChar, Renderer};
pub use speed::RainSpeed;
