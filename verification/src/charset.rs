//! Character inventories for the rain effect.
//!
//! Each selector names a script and yields an ordered inventory of candidate
//! glyphs; a column draws uniformly at random from that inventory. The
//! inventories are built from Unicode code-point spans, so their exact
//! contents are pinned down by the `code_span` spec below.

use vstd::prelude::*;
use crate::rng::rng_below_usize;

verus! {

broadcast use vstd::utf8::char_u32_cast;

/// A code point that names a Unicode scalar value (not a surrogate, not
/// beyond the last plane).
pub open spec fn valid_code(u: u32) -> bool {
    u < 0xD800 || (0xE000 <= u && u <= 0x10FFFF)
}

/// The characters of `count` code points starting at `lo`, `step` apart.
pub open spec fn code_span(lo: u32, step: u32, count: int) -> Seq<char> {
    Seq::new(count as nat, |k: int| ((lo + k * step) as u32) as char)
}

/// The characters named by a sequence of code points, in order.
pub open spec fn chars_of_codes(codes: Seq<u32>) -> Seq<char> {
    codes.map_values(|u: u32| u as char)
}

/// Every `step`-th element of `s` from index `i` on, at most `count` of them.
pub open spec fn sample_rec(s: Seq<char>, step: int, count: int, i: int) -> Seq<char>
    decreases count,
{
    if i >= s.len() || count <= 0 {
        Seq::<char>::empty()
    } else {
        seq![s[i]] + sample_rec(s, step, count - 1, i + step)
    }
}

/// Every `step`-th element of `s`, at most `count` of them.
pub open spec fn sample_every(s: Seq<char>, step: int, count: int) -> Seq<char> {
    sample_rec(s, step, count, 0)
}

/// The stride used to thin an inventory of `len` glyphs down to about
/// `count` of them.
pub open spec fn mix_step(len: int, count: int) -> int {
    if len / count >= 1 {
        len / count
    } else {
        1
    }
}

/// Relies on char::from_u32: every code point outside the surrogate range
/// and at most 0x10FFFF converts to the char with exactly that scalar value.
#[verifier::external_body]
fn char_from_code(u: u32) -> (c: char)
    requires
        valid_code(u),
    ensures
        c as u32 == u,
{
    char::from_u32(u).unwrap()
}

/// Appends the characters of `count` code points starting at `lo`, `step`
/// apart.
fn push_code_span(chars: &mut Vec<char>, lo: u32, step: u32, count: u32)
    requires
        step >= 1,
        lo + (count as int - 1) * step < 0xD800 || (0xE000 <= lo && lo + (count as int - 1)
            * step <= 0x10FFFF),
    ensures
        final(chars)@ == old(chars)@ + code_span(lo, step, count as int),
{
    proof {
        assert(chars@ =~= old(chars)@ + code_span(lo, step, 0));
    }
    let mut i: u32 = 0;
    while i < count
        invariant
            step >= 1,
            i <= count,
            lo + (count as int - 1) * step < 0xD800 || (0xE000 <= lo && lo + (count as int - 1)
                * step <= 0x10FFFF),
            chars@ == old(chars)@ + code_span(lo, step, i as int),
        decreases count - i,
    {
        proof {
            assert(i as int * step as int <= (count as int - 1) * step as int)
                by (nonlinear_arith)
                requires i < count, step >= 1,
            ;
            assert(0 <= i as int * step as int) by (nonlinear_arith);
        }
        let code: u32 = lo + i * step;
        let c = char_from_code(code);
        chars.push(c);
        proof {
            assert(chars@ =~= old(chars)@ + code_span(lo, step, i as int + 1));
        }
        i = i + 1;
    }
}

/// Appends the single character of one code point.
fn push_code(chars: &mut Vec<char>, u: u32)
    requires
        valid_code(u),
    ensures
        final(chars)@ == old(chars)@ + seq![(u as char)],
{
    let c = char_from_code(u);
    chars.push(c);
    proof {
        assert(chars@ =~= old(chars)@ + seq![(u as char)]);
    }
}

/// Keeps every `step`-th glyph of `src`, up to `count` of them, in order.
fn sample_every_vec(src: &Vec<char>, step: usize, count: usize) -> (r: Vec<char>)
    requires
        step >= 1,
        src@.len() + step <= usize::MAX,
    ensures
        r@ == sample_every(src@, step as int, count as int),
{
    let mut r: Vec<char> = Vec::new();
    proof {
        assert(sample_every(src@, step as int, count as int) =~= r@ + sample_rec(
            src@,
            step as int,
            count as int,
            0,
        ));
    }
    let mut i: usize = 0;
    while i < src.len() && r.len() < count
        invariant
            step >= 1,
            src@.len() + step <= usize::MAX,
            i <= src@.len() + step,
            r@.len() <= count,
            sample_every(src@, step as int, count as int) == r@ + sample_rec(
                src@,
                step as int,
                count as int - r@.len(),
                i as int,
            ),
        decreases src@.len() + step - i,
    {
        let ghost pre = r@;
        let ghost rem = count as int - r@.len();
        r.push(src[i]);
        proof {
            assert(sample_rec(src@, step as int, rem, i as int) == seq![src@[i as int]]
                + sample_rec(src@, step as int, rem - 1, i as int + step));
            assert(pre + (seq![src@[i as int]] + sample_rec(
                src@,
                step as int,
                rem - 1,
                i as int + step,
            )) =~= r@ + sample_rec(src@, step as int, rem - 1, i as int + step));
        }
        i = i + step;
    }
    proof {
        assert(sample_rec(src@, step as int, count as int - r@.len(), i as int)
            =~= Seq::<char>::empty());
        assert(r@ + Seq::<char>::empty() =~= r@);
    }
    r
}

/// The Japanese inventory's trailing extras: digits, a few symbols, and a
/// run of repeated half-width katakana for visual weighting.
pub open spec fn japanese_extra_codes() -> Seq<u32> {
    seq![
        0x002Eu32, 0x003A, 0x003D, 0x002A, 0x002B, 0x002D, 0x003C, 0x003E, 0x00A6, 0x007C,
        0xFF8A, 0xFF90, 0xFF8B, 0xFF70, 0xFF73, 0xFF7C, 0xFF85, 0xFF93, 0xFF86, 0xFF7B,
        0xFF9C, 0xFF82, 0xFF75, 0xFF98, 0xFF71, 0xFF8E, 0xFF83, 0xFF8F, 0xFF79, 0xFF92,
        0xFF74, 0xFF76, 0xFF77, 0xFF91, 0xFF95, 0xFF97, 0xFF7E, 0xFF88, 0xFF7D, 0xFF80,
        0xFF87, 0xFF8D,
    ]
}

/// Katakana (with half-width forms), then digits and symbols for
/// authenticity.
pub open spec fn spec_japanese() -> Seq<char> {
    code_span(0x30A0, 1, 96) + code_span(0xFF65, 1, 59) + code_span(0x30, 1, 10)
        + chars_of_codes(japanese_extra_codes())
}

/// Devanagari, with the Devanagari Extended block.
pub open spec fn spec_hindi() -> Seq<char> {
    code_span(0x0900, 1, 128) + code_span(0xA8E0, 1, 32)
}

/// The Tamil block.
pub open spec fn spec_tamil() -> Seq<char> {
    code_span(0x0B80, 1, 128)
}

/// Sinhala, with the Sinhala Archaic Numbers block.
pub open spec fn spec_sinhala() -> Seq<char> {
    code_span(0x0D80, 1, 128) + code_span(0x111E0, 1, 32)
}

/// Every 10th Hangul syllable, then the Hangul Compatibility Jamo block.
pub open spec fn spec_korean() -> Seq<char> {
    code_span(0xAC00, 10, 1119) + code_span(0x3130, 1, 96)
}

/// Arabic, with the Arabic Supplement and Arabic Extended-A blocks.
pub open spec fn spec_jawi() -> Seq<char> {
    code_span(0x0600, 1, 256) + code_span(0x0750, 1, 48) + code_span(0x08A0, 1, 96)
}

/// About 500 glyphs: half sampled from the Japanese inventory, a tenth from
/// each of the five other scripts.
pub open spec fn spec_mixed() -> Seq<char> {
    sample_every(spec_japanese(), mix_step(spec_japanese().len() as int, 250), 250)
        + sample_every(spec_hindi(), mix_step(spec_hindi().len() as int, 50), 50)
        + sample_every(spec_tamil(), mix_step(spec_tamil().len() as int, 50), 50)
        + sample_every(spec_sinhala(), mix_step(spec_sinhala().len() as int, 50), 50)
        + sample_every(spec_korean(), mix_step(spec_korean().len() as int, 50), 50)
        + sample_every(spec_jawi(), mix_step(spec_jawi().len() as int, 50), 50)
}

fn build_japanese() -> (v: Vec<char>)
    ensures
        v@ == spec_japanese(),
{
    let mut v: Vec<char> = Vec::new();
    push_code_span(&mut v, 0x30A0, 1, 96);
    push_code_span(&mut v, 0xFF65, 1, 59);
    push_code_span(&mut v, 0x30, 1, 10);
    push_code(&mut v, 0x002E);
    push_code(&mut v, 0x003A);
    push_code(&mut v, 0x003D);
    push_code(&mut v, 0x002A);
    push_code(&mut v, 0x002B);
    push_code(&mut v, 0x002D);
    push_code(&mut v, 0x003C);
    push_code(&mut v, 0x003E);
    push_code(&mut v, 0x00A6);
    push_code(&mut v, 0x007C);
    push_code(&mut v, 0xFF8A);
    push_code(&mut v, 0xFF90);
    push_code(&mut v, 0xFF8B);
    push_code(&mut v, 0xFF70);
    push_code(&mut v, 0xFF73);
    push_code(&mut v, 0xFF7C);
    push_code(&mut v, 0xFF85);
    push_code(&mut v, 0xFF93);
    push_code(&mut v, 0xFF86);
    push_code(&mut v, 0xFF7B);
    push_code(&mut v, 0xFF9C);
    push_code(&mut v, 0xFF82);
    push_code(&mut v, 0xFF75);
    push_code(&mut v, 0xFF98);
    push_code(&mut v, 0xFF71);
    push_code(&mut v, 0xFF8E);
    push_code(&mut v, 0xFF83);
    push_code(&mut v, 0xFF8F);
    push_code(&mut v, 0xFF79);
    push_code(&mut v, 0xFF92);
    push_code(&mut v, 0xFF74);
    push_code(&mut v, 0xFF76);
    push_code(&mut v, 0xFF77);
    push_code(&mut v, 0xFF91);
    push_code(&mut v, 0xFF95);
    push_code(&mut v, 0xFF97);
    push_code(&mut v, 0xFF7E);
    push_code(&mut v, 0xFF88);
    push_code(&mut v, 0xFF7D);
    push_code(&mut v, 0xFF80);
    push_code(&mut v, 0xFF87);
    push_code(&mut v, 0xFF8D);
    proof {
        assert(v@ =~= spec_japanese());
    }
    v
}

fn build_hindi() -> (v: Vec<char>)
    ensures
        v@ == spec_hindi(),
{
    let mut v: Vec<char> = Vec::new();
    push_code_span(&mut v, 0x0900, 1, 128);
    push_code_span(&mut v, 0xA8E0, 1, 32);
    proof {
        assert(v@ =~= spec_hindi());
    }
    v
}

fn build_tamil() -> (v: Vec<char>)
    ensures
        v@ == spec_tamil(),
{
    let mut v: Vec<char> = Vec::new();
    push_code_span(&mut v, 0x0B80, 1, 128);
    proof {
        assert(v@ =~= spec_tamil());
    }
    v
}

fn build_sinhala() -> (v: Vec<char>)
    ensures
        v@ == spec_sinhala(),
{
    let mut v: Vec<char> = Vec::new();
    push_code_span(&mut v, 0x0D80, 1, 128);
    push_code_span(&mut v, 0x111E0, 1, 32);
    proof {
        assert(v@ =~= spec_sinhala());
    }
    v
}

fn build_korean() -> (v: Vec<char>)
    ensures
        v@ == spec_korean(),
{
    let mut v: Vec<char> = Vec::new();
    push_code_span(&mut v, 0xAC00, 10, 1119);
    push_code_span(&mut v, 0x3130, 1, 96);
    proof {
        assert(v@ =~= spec_korean());
    }
    v
}

fn build_jawi() -> (v: Vec<char>)
    ensures
        v@ == spec_jawi(),
{
    let mut v: Vec<char> = Vec::new();
    push_code_span(&mut v, 0x0600, 1, 256);
    push_code_span(&mut v, 0x0750, 1, 48);
    push_code_span(&mut v, 0x08A0, 1, 96);
    proof {
        assert(v@ =~= spec_jawi());
    }
    v
}

/// Thins one source inventory for the mixed set: every `len / target`-th
/// glyph (at least every glyph), at most `target` of them.
fn sample_for_mix(src: &Vec<char>, target: usize) -> (r: Vec<char>)
    requires
        target >= 1,
        src@.len() * 2 <= usize::MAX,
    ensures
        r@ == sample_every(src@, mix_step(src@.len() as int, target as int), target as int),
{
    let q = src.len() / target;
    let step = if q >= 1 { q } else { 1 };
    proof {
        assert(src@.len() as int / target as int <= src@.len() as int) by (nonlinear_arith)
            requires target >= 1,
        ;
    }
    sample_every_vec(src, step, target)
}

fn build_mixed() -> (v: Vec<char>)
    ensures
        v@ == spec_mixed(),
{
    let jp = build_japanese();
    let hi = build_hindi();
    let ta = build_tamil();
    let si = build_sinhala();
    let ko = build_korean();
    let jw = build_jawi();
    let mut v: Vec<char> = Vec::new();
    let mut part = sample_for_mix(&jp, 250);
    v.append(&mut part);
    let mut part = sample_for_mix(&hi, 50);
    v.append(&mut part);
    let mut part = sample_for_mix(&ta, 50);
    v.append(&mut part);
    let mut part = sample_for_mix(&si, 50);
    v.append(&mut part);
    let mut part = sample_for_mix(&ko, 50);
    v.append(&mut part);
    let mut part = sample_for_mix(&jw, 50);
    v.append(&mut part);
    proof {
        assert(v@ =~= spec_mixed());
    }
    v
}

/// Available character sets for the rain effect.
#[derive(Clone, Copy, Debug, PartialEq, Eq, Structural)]
pub enum CharacterSet {
    /// Japanese Katakana characters (classic rain style)
    Japanese,
    /// Hindi Devanagari script
    Hindi,
    /// Tamil script
    Tamil,
    /// Sinhala script
    Sinhala,
    /// Korean Hangul characters
    Korean,
    /// Malaysian Jawi script (Arabic-based)
    Jawi,
    /// Mixed character set (half Japanese, the rest from the other sets)
    Mixed,
}

impl CharacterSet {
    /// The ordered glyph inventory of this character set.
    pub open spec fn spec_inventory(self) -> Seq<char> {
        match self {
            CharacterSet::Japanese => spec_japanese(),
            CharacterSet::Hindi => spec_hindi(),
            CharacterSet::Tamil => spec_tamil(),
            CharacterSet::Sinhala => spec_sinhala(),
            CharacterSet::Korean => spec_korean(),
            CharacterSet::Jawi => spec_jawi(),
            CharacterSet::Mixed => spec_mixed(),
        }
    }

    /// Get the Unicode characters for this character set.
    pub fn get_characters(&self) -> (r: Vec<char>)
        ensures
            r@ == self.spec_inventory(),
    {
        match self {
            CharacterSet::Japanese => build_japanese(),
            CharacterSet::Hindi => build_hindi(),
            CharacterSet::Tamil => build_tamil(),
            CharacterSet::Sinhala => build_sinhala(),
            CharacterSet::Korean => build_korean(),
            CharacterSet::Jawi => build_jawi(),
            CharacterSet::Mixed => build_mixed(),
        }
    }

    /// Get a random character from this character set, drawn uniformly from
    /// its inventory.
    pub fn random_character(&self, rng: &mut rand::rngs::StdRng) -> (c: char)
        ensures
            self.spec_inventory().contains(c),
    {
        let chars = self.get_characters();
        proof {
            lemma_inventory_nonempty(*self);
        }
        let idx = rng_below_usize(rng, chars.len());
        let c = chars[idx];
        proof {
            assert(self.spec_inventory()[idx as int] == c);
        }
        c
    }
}

impl Default for CharacterSet {
    /// The default set is the Japanese one.
    fn default() -> (r: Self)
        ensures
            r == CharacterSet::Japanese,
    {
        CharacterSet::Japanese
    }
}

/// No character set has an empty inventory, so a uniform draw from one is
/// always possible.
pub proof fn lemma_inventory_nonempty(cs: CharacterSet)
    ensures
        cs.spec_inventory().len() >= 1,
{
    if cs == CharacterSet::Mixed {
        assert(spec_japanese().len() == 207);
        assert(sample_rec(spec_japanese(), mix_step(207, 250), 250, 0) == seq![
            spec_japanese()[0],
        ] + sample_rec(spec_japanese(), mix_step(207, 250), 249, mix_step(207, 250)));
    }
}

} // verus!
