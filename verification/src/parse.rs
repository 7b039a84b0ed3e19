//! Parsing of the user-facing selector strings (character set, color
//! scheme, speed tier). Selectors are case-insensitive and most options
//! have a short alias.

use vstd::prelude::*;
use crate::charset::CharacterSet;
use crate::colors::ColorScheme;
use crate::speed::RainSpeed;

verus! {

/// What `str::to_lowercase` returns for a given character sequence.
pub uninterp spec fn lower_of(s: Seq<char>) -> Seq<char>;

/// Relies on str::to_lowercase: the result is a function of the characters
/// alone.
#[verifier::external_body]
fn lowercase(s: &str) -> (r: String)
    ensures
        r@ == lower_of(s@),
{
    s.to_lowercase()
}

/// A selector string that names no known option. Carries the rejected
/// input.
#[derive(Debug)]
pub struct ParseError {
    /// The selector text that was not recognized.
    pub input: String,
}

/// Character-wise equality of two strings.
fn str_eq(a: &str, b: &str) -> (r: bool)
    ensures
        r == (a@ == b@),
{
    let alen = a.unicode_len();
    let blen = b.unicode_len();
    if alen != blen {
        return false;
    }
    let mut i: usize = 0;
    while i < alen
        invariant
            i <= alen,
            alen == a@.len(),
            alen == b@.len(),
            forall|k: int| 0 <= k < i ==> a@[k] == b@[k],
        decreases alen - i,
    {
        if a.get_char(i) != b.get_char(i) {
            return false;
        }
        i = i + 1;
    }
    proof {
        assert(a@ =~= b@);
    }
    true
}

/// The character set a lowercased selector names, if any.
pub open spec fn spec_charset_for(q: Seq<char>) -> Option<CharacterSet> {
    if q == "japanese"@ || q == "jp"@ {
        Some(CharacterSet::Japanese)
    } else if q == "hindi"@ || q == "hi"@ {
        Some(CharacterSet::Hindi)
    } else if q == "tamil"@ || q == "ta"@ {
        Some(CharacterSet::Tamil)
    } else if q == "sinhala"@ || q == "si"@ {
        Some(CharacterSet::Sinhala)
    } else if q == "korean"@ || q == "ko"@ {
        Some(CharacterSet::Korean)
    } else if q == "jawi"@ || q == "jw"@ {
        Some(CharacterSet::Jawi)
    } else if q == "mixed"@ || q == "mix"@ {
        Some(CharacterSet::Mixed)
    } else {
        None
    }
}

/// The color scheme a lowercased selector names, if any.
pub open spec fn spec_color_for(q: Seq<char>) -> Option<ColorScheme> {
    if q == "matrix-green"@ || q == "green"@ {
        Some(ColorScheme::MatrixGreen)
    } else if q == "dark-blue"@ || q == "blue"@ {
        Some(ColorScheme::DarkBlue)
    } else if q == "purple"@ {
        Some(ColorScheme::Purple)
    } else if q == "orange"@ {
        Some(ColorScheme::Orange)
    } else if q == "red"@ {
        Some(ColorScheme::Red)
    } else if q == "cyan"@ {
        Some(ColorScheme::Cyan)
    } else if q == "yellow"@ {
        Some(ColorScheme::Yellow)
    } else if q == "pink"@ {
        Some(ColorScheme::Pink)
    } else if q == "white"@ {
        Some(ColorScheme::White)
    } else if q == "lime-green"@ || q == "lime"@ {
        Some(ColorScheme::LimeGreen)
    } else if q == "teal"@ {
        Some(ColorScheme::Teal)
    } else {
        None
    }
}

/// The speed tier a lowercased selector names, if any.
pub open spec fn spec_speed_for(q: Seq<char>) -> Option<RainSpeed> {
    if q == "very-slow"@ || q == "veryslow"@ || q == "vs"@ {
        Some(RainSpeed::VerySlow)
    } else if q == "slow"@ || q == "s"@ {
        Some(RainSpeed::Slow)
    } else if q == "medium"@ || q == "med"@ || q == "m"@ {
        Some(RainSpeed::Medium)
    } else if q == "fast"@ || q == "f"@ {
        Some(RainSpeed::Fast)
    } else if q == "very-fast"@ || q == "veryfast"@ || q == "vf"@ {
        Some(RainSpeed::VeryFast)
    } else {
        None
    }
}

fn lookup_charset(q: &str) -> (r: Option<CharacterSet>)
    ensures
        r == spec_charset_for(q@),
{
    if str_eq(q, "japanese") || str_eq(q, "jp") {
        Some(CharacterSet::Japanese)
    } else if str_eq(q, "hindi") || str_eq(q, "hi") {
        Some(CharacterSet::Hindi)
    } else if str_eq(q, "tamil") || str_eq(q, "ta") {
        Some(CharacterSet::Tamil)
    } else if str_eq(q, "sinhala") || str_eq(q, "si") {
        Some(CharacterSet::Sinhala)
    } else if str_eq(q, "korean") || str_eq(q, "ko") {
        Some(CharacterSet::Korean)
    } else if str_eq(q, "jawi") || str_eq(q, "jw") {
        Some(CharacterSet::Jawi)
    } else if str_eq(q, "mixed") || str_eq(q, "mix") {
        Some(CharacterSet::Mixed)
    } else {
        None
    }
}

fn lookup_color(q: &str) -> (r: Option<ColorScheme>)
    ensures
        r == spec_color_for(q@),
{
    if str_eq(q, "matrix-green") || str_eq(q, "green") {
        Some(ColorScheme::MatrixGreen)
    } else if str_eq(q, "dark-blue") || str_eq(q, "blue") {
        Some(ColorScheme::DarkBlue)
    } else if str_eq(q, "purple") {
        Some(ColorScheme::Purple)
    } else if str_eq(q, "orange") {
        Some(ColorScheme::Orange)
    } else if str_eq(q, "red") {
        Some(ColorScheme::Red)
    } else if str_eq(q, "cyan") {
        Some(ColorScheme::Cyan)
    } else if str_eq(q, "yellow") {
        Some(ColorScheme::Yellow)
    } else if str_eq(q, "pink") {
        Some(ColorScheme::Pink)
    } else if str_eq(q, "white") {
        Some(ColorScheme::White)
    } else if str_eq(q, "lime-green") || str_eq(q, "lime") {
        Some(ColorScheme::LimeGreen)
    } else if str_eq(q, "teal") {
        Some(ColorScheme::Teal)
    } else {
        None
    }
}

fn lookup_speed(q: &str) -> (r: Option<RainSpeed>)
    ensures
        r == spec_speed_for(q@),
{
    if str_eq(q, "very-slow") || str_eq(q, "veryslow") || str_eq(q, "vs") {
        Some(RainSpeed::VerySlow)
    } else if str_eq(q, "slow") || str_eq(q, "s") {
        Some(RainSpeed::Slow)
    } else if str_eq(q, "medium") || str_eq(q, "med") || str_eq(q, "m") {
        Some(RainSpeed::Medium)
    } else if str_eq(q, "fast") || str_eq(q, "f") {
        Some(RainSpeed::Fast)
    } else if str_eq(q, "very-fast") || str_eq(q, "veryfast") || str_eq(q, "vf") {
        Some(RainSpeed::VeryFast)
    } else {
        None
    }
}

/// Parse a character-set selector, case-insensitively. Returns the named
/// set, or an error carrying the input exactly when the lowercased input
/// names none.
pub fn parse_charset(s: &str) -> (r: Result<CharacterSet, ParseError>)
    ensures
        match r {
            Ok(c) => spec_charset_for(lower_of(s@)) == Some(c),
            Err(e) => spec_charset_for(lower_of(s@)) is None && e.input@ == s@,
        },
{
    let folded = lowercase(s);
    match lookup_charset(folded.as_str()) {
        Some(c) => Ok(c),
        None => Err(ParseError { input: s.to_owned() }),
    }
}

/// Parse a color-scheme selector, case-insensitively. Returns the named
/// scheme, or an error carrying the input exactly when the lowercased input
/// names none.
pub fn parse_color(s: &str) -> (r: Result<ColorScheme, ParseError>)
    ensures
        match r {
            Ok(c) => spec_color_for(lower_of(s@)) == Some(c),
            Err(e) => spec_color_for(lower_of(s@)) is None && e.input@ == s@,
        },
{
    let folded = lowercase(s);
    match lookup_color(folded.as_str()) {
        Some(c) => Ok(c),
        None => Err(ParseError { input: s.to_owned() }),
    }
}

/// Parse a speed selector, case-insensitively. Returns the named tier, or
/// an error carrying the input exactly when the lowercased input names
/// none.
pub fn parse_speed(s: &str) -> (r: Result<RainSpeed, ParseError>)
    ensures
        match r {
            Ok(c) => spec_speed_for(lower_of(s@)) == Some(c),
            Err(e) => spec_speed_for(lower_of(s@)) is None && e.input@ == s@,
        },
{
    let folded = lowercase(s);
    match lookup_speed(folded.as_str()) {
        Some(c) => Ok(c),
        None => Err(ParseError { input: s.to_owned() }),
    }
}

} // verus!
