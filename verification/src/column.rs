//! A single column of falling glyphs.
//!
//! A column owns one vertical trail: the head's position, a per-column speed
//! and trail cap (both jittered once at creation), the glyph buffer, and an
//! active flag. Positions and speeds are in thousandths of a character cell,
//! so one tick moves the head by `speed_milli / 1000` cells.

use vstd::prelude::*;
use crate::charset::CharacterSet;
use crate::rng::{rng_below, rng_below_usize, rng_range_u32, rng_range_usize};

verus! {

/// Cap on a head position, in thousandths of a cell. A head saturates here
/// rather than overflowing; it is far beyond any surface, so a column at the
/// cap is always off-surface and gets reset or deactivated.
pub const Y_CAP_MILLI: i64 = 1_000_000_000_000;

/// Hard bound on a per-column trail cap, in glyphs.
pub const TRAIL_CAP_LIMIT: usize = 1_000_000;

/// Hard bound on the base speed handed to a column, in thousandths of a cell
/// per tick.
pub const MAX_BASE_SPEED_MILLI: u32 = 1_000_000;

/// Hard bound on a jittered per-column speed: the base bound times the
/// largest jitter factor (1.3).
pub const MAX_COLUMN_SPEED_MILLI: u32 = 1_300_000;

/// The head position after one tick: advanced by the column's speed, but
/// saturating at the cap.
pub open spec fn spec_advanced_y(y: int, speed: int) -> int {
    if y + speed <= Y_CAP_MILLI {
        y + speed
    } else {
        Y_CAP_MILLI as int
    }
}

/// The normalized offset of trail index `i` in a trail of `len` glyphs, in
/// thousandths: 0 at the head, exactly 1000 at the tail when `len > 1`.
pub open spec fn spec_trail_offset_milli(len: int, i: int) -> int {
    if len <= 1 {
        0
    } else {
        i * 1000 / (len - 1)
    }
}

/// The trail-offset formula stays within [0, 1000] for every index inside
/// the trail.
pub proof fn lemma_trail_offset_in_range(len: int, i: int)
    requires
        len > 1,
        0 <= i < len,
    ensures
        0 <= i * 1000 / (len - 1) <= 1000,
{
    assert(i * 1000 <= (len - 1) * 1000);
    vstd::arithmetic::div_mod::lemma_div_is_ordered(i * 1000, (len - 1) * 1000, len - 1);
    assert((len - 1) * 1000 / (len - 1) == 1000) by (nonlinear_arith)
        requires len > 1,
    ;
}

/// A column's jittered speed: the base speed scaled by a factor drawn
/// uniformly from 70%-130%, for visual variety.
pub(crate) fn jittered_speed(base_speed_milli: u32, rng: &mut rand::rngs::StdRng) -> (s: u32)
    requires
        base_speed_milli <= MAX_BASE_SPEED_MILLI,
    ensures
        base_speed_milli * 700 / 1000 <= s <= base_speed_milli * 1300 / 1000,
        s <= MAX_COLUMN_SPEED_MILLI,
{
    let j = rng_range_u32(rng, 700, 1300);
    proof {
        assert(base_speed_milli * 700 <= base_speed_milli * j <= base_speed_milli * 1300)
            by (nonlinear_arith)
            requires 700 <= j <= 1300, base_speed_milli >= 0,
        ;
        vstd::arithmetic::div_mod::lemma_div_is_ordered(
            base_speed_milli * 700,
            base_speed_milli * j,
            1000,
        );
        vstd::arithmetic::div_mod::lemma_div_is_ordered(
            base_speed_milli * j,
            base_speed_milli * 1300,
            1000,
        );
    }
    ((base_speed_milli as u64) * (j as u64) / 1000) as u32
}

/// A single column of falling characters.
#[derive(Debug, Clone)]
pub struct RainColumn {
    /// X position of the column (in character cells, not pixels)
    pub x: usize,
    /// Current Y position of the head of the rain, in thousandths of a cell;
    /// negative while the head is still above the visible surface
    pub y_milli: i64,
    /// The trail of characters in this column
    pub characters: Vec<char>,
    /// This column's own speed, in thousandths of a cell per tick
    pub speed_milli: u32,
    /// Maximum length of the trail
    pub max_length: usize,
    /// Whether this column is currently active
    pub active: bool,
}

impl RainColumn {
    /// Well-formedness: every numeric field stays inside the bounds the
    /// arithmetic needs. (That the trail respects its cap is stated
    /// separately on `update`: a reconfiguration may re-roll the cap below
    /// the current trail length, and such a trail merely stops growing.)
    pub open spec fn wf(self) -> bool {
        &&& self.characters@.len() <= TRAIL_CAP_LIMIT
        &&& self.max_length <= TRAIL_CAP_LIMIT
        &&& self.speed_milli <= MAX_COLUMN_SPEED_MILLI
        &&& -20_000 <= self.y_milli <= Y_CAP_MILLI
    }

    /// Whether the whole trail has scrolled below the bottom edge: the head
    /// must have passed the surface's height in cells plus the trail length.
    pub open spec fn spec_off_screen(self, screen_height_px: u32, char_height_milli: u64) -> bool {
        self.y_milli > (screen_height_px as int * 1000 / char_height_milli as int
            + self.characters@.len()) * 1000
    }

    /// The trail glyphs from head to tail, each with its absolute vertical
    /// position (in thousandths of a cell) and its normalized trail offset
    /// (in thousandths; 0 = head, 1000 = tail).
    pub open spec fn spec_trail_positions(self) -> Seq<(char, i64, u32)> {
        Seq::new(
            self.characters@.len(),
            |i: int|
                (
                    self.characters@[i],
                    (self.y_milli - i * 1000) as i64,
                    spec_trail_offset_milli(self.characters@.len() as int, i) as u32,
                ),
        )
    }

    /// Create a new rain column: the head starts 5 to 20 cells above the
    /// surface, the speed is jittered to 70%-130% of the base speed, and the
    /// trail cap is jittered to 50%-100% of the given cap. The trail starts
    /// empty and the column active.
    pub fn new(
        x: usize,
        max_length: usize,
        base_speed_milli: u32,
        rng: &mut rand::rngs::StdRng,
    ) -> (c: RainColumn)
        requires
            max_length <= TRAIL_CAP_LIMIT,
            base_speed_milli <= MAX_BASE_SPEED_MILLI,
        ensures
            c.wf(),
            c.x == x,
            -20_000 <= c.y_milli <= -5_000,
            c.y_milli < 0,
            c.characters@.len() == 0,
            base_speed_milli * 700 / 1000 <= c.speed_milli <= base_speed_milli * 1300 / 1000,
            max_length / 2 <= c.max_length <= max_length,
            c.active == true,
    {
        // Randomize starting position above the surface
        let n = rng_range_u32(rng, 5, 20);
        let y_milli: i64 = -((n as i64) * 1000);

        // Randomize speed slightly for visual variety
        let speed_milli = jittered_speed(base_speed_milli, rng);

        RainColumn {
            x,
            y_milli,
            characters: Vec::new(),
            speed_milli,
            max_length: rng_range_usize(rng, max_length / 2, max_length),
            active: true,
        }
    }

    /// Advance the column one tick: move the head down by the column speed;
    /// with probability 0.8, while the trail is below its cap, one freshly
    /// drawn glyph joins the trail at the head (index 0) and every prior
    /// glyph shifts up one index; independently, with probability 0.05,
    /// rewrite one uniformly chosen glyph in place (the "glitch" flicker).
    /// Inactive columns are left untouched and draw no randomness.
    /// Everything but the head and the trail is preserved, the trail keeps
    /// its cap, at most one surviving glyph changes, and every new or
    /// changed glyph comes from the character set's inventory.
    pub fn update(&mut self, char_set: &CharacterSet, rng: &mut rand::rngs::StdRng)
        requires
            old(self).wf(),
        ensures
            final(self).wf(),
            final(self).x == old(self).x,
            final(self).speed_milli == old(self).speed_milli,
            final(self).max_length == old(self).max_length,
            final(self).active == old(self).active,
            !old(self).active ==> *final(self) == *old(self),
            !old(self).active ==> *final(rng) == *old(rng),
            old(self).active ==> final(self).y_milli == spec_advanced_y(
                old(self).y_milli as int,
                old(self).speed_milli as int,
            ),
            old(self).characters@.len() <= final(self).characters@.len(),
            final(self).characters@.len() <= old(self).characters@.len() + 1,
            final(self).characters@.len() > old(self).characters@.len() ==> old(self).characters@.len() < old(self).max_length,
            old(self).characters@.len() <= old(self).max_length ==> final(self).characters@.len() <= final(self).max_length,
            // Same length: every glyph keeps its index, except at most one
            // replaced in place by a fresh inventory glyph (the glitch)
            final(self).characters@.len() == old(self).characters@.len() ==> forall|j: int|
                0 <= j < old(self).characters@.len() ==> final(self).characters@[j] == old(self).characters@[j]
                    || char_set.spec_inventory().contains(#[trigger] final(self).characters@[j]),
            final(self).characters@.len() == old(self).characters@.len() ==> forall|j1: int, j2: int|
                0 <= j1 < old(self).characters@.len() && 0 <= j2 < old(self).characters@.len()
                    && #[trigger] final(self).characters@[j1] != old(self).characters@[j1]
                    && #[trigger] final(self).characters@[j2] != old(self).characters@[j2] ==> j1 == j2,
            // Grown by one: the fresh inventory glyph stands at the head and
            // every prior glyph has shifted up one index, except at most one
            // replaced by the glitch
            final(self).characters@.len() == old(self).characters@.len() + 1
                ==> char_set.spec_inventory().contains(final(self).characters@[0]),
            final(self).characters@.len() == old(self).characters@.len() + 1 ==> forall|j: int|
                1 <= j < final(self).characters@.len() ==> #[trigger] final(self).characters@[j]
                    == old(self).characters@[j - 1] || char_set.spec_inventory().contains(
                    final(self).characters@[j],
                ),
            final(self).characters@.len() == old(self).characters@.len() + 1 ==> forall|j1: int, j2: int|
                1 <= j1 < final(self).characters@.len() && 1 <= j2 < final(self).characters@.len()
                    && #[trigger] final(self).characters@[j1] != old(self).characters@[j1 - 1]
                    && #[trigger] final(self).characters@[j2] != old(self).characters@[j2 - 1] ==> j1 == j2,
    {
        if !self.active {
            return ;
        }

        // Move the column down, saturating at the cap
        if self.y_milli <= Y_CAP_MILLI - (self.speed_milli as i64) {
            self.y_milli = self.y_milli + (self.speed_milli as i64);
        } else {
            self.y_milli = Y_CAP_MILLI;
        }

        let ghost pre = self.characters@;

        // Reveal a new character at the head of the trail
        if self.characters.len() < self.max_length && rng_below(rng, 1000) < 800 {
            let c = char_set.random_character(rng);
            self.characters.insert(0, c);
            proof {
                pre.insert_ensures(0, c);
            }
        }

        // Occasionally change a character in the trail for the "glitch" effect
        if self.characters.len() > 0 && rng_below(rng, 1000) < 50 {
            let idx = rng_below_usize(rng, self.characters.len());
            let c = char_set.random_character(rng);
            self.characters[idx] = c;
        }
    }

    /// Check whether the column has moved fully off the bottom edge of a
    /// surface of the given pixel height, for cells of the given height in
    /// thousandths of a pixel.
    pub fn is_off_screen(&self, screen_height_px: u32, char_height_milli: u64) -> (r: bool)
        requires
            char_height_milli >= 1,
            self.characters@.len() <= TRAIL_CAP_LIMIT,
        ensures
            r == self.spec_off_screen(screen_height_px, char_height_milli),
    {
        let max_cells: u64 = (screen_height_px as u64) * 1000 / char_height_milli;
        let threshold: u64 = (max_cells + self.characters.len() as u64) * 1000;
        self.y_milli > threshold as i64
    }

    /// Reset the column to start over: a fresh head 5 to 20 cells above the
    /// surface, an empty trail, and the active flag set. The slot, speed and
    /// trail cap are kept.
    pub fn reset(&mut self, rng: &mut rand::rngs::StdRng)
        requires
            old(self).wf(),
        ensures
            final(self).wf(),
            final(self).x == old(self).x,
            final(self).speed_milli == old(self).speed_milli,
            final(self).max_length == old(self).max_length,
            -20_000 <= final(self).y_milli <= -5_000,
            final(self).y_milli < 0,
            final(self).characters@.len() == 0,
            final(self).active == true,
    {
        let n = rng_range_u32(rng, 5, 20);
        self.y_milli = -((n as i64) * 1000);
        self.characters.clear();
        self.active = true;
    }

    /// Get the position of each character in the trail, head to tail:
    /// (character, y position in thousandths of a cell, normalized trail
    /// offset in thousandths, 0 at the head and 1000 at the tail).
    pub fn get_trail_positions(&self) -> (r: Vec<(char, i64, u32)>)
        requires
            self.wf(),
        ensures
            r@ == self.spec_trail_positions(),
    {
        let len = self.characters.len();
        let mut r: Vec<(char, i64, u32)> = Vec::new();
        let mut i: usize = 0;
        while i < len
            invariant
                self.wf(),
                len == self.characters@.len(),
                i <= len,
                r@ == self.spec_trail_positions().take(i as int),
            decreases len - i,
        {
            let ch = self.characters[i];
            let y_pos: i64 = self.y_milli - (i as i64) * 1000;
            let off: u32 = if len <= 1 {
                0
            } else {
                proof {
                    lemma_trail_offset_in_range(len as int, i as int);
                }
                ((i as u64) * 1000 / ((len - 1) as u64)) as u32
            };
            r.push((ch, y_pos, off));
            proof {
                assert(r@ =~= self.spec_trail_positions().take(i as int + 1));
            }
            i = i + 1;
        }
        proof {
            assert(self.spec_trail_positions().take(len as int) =~= self.spec_trail_positions());
        }
        r
    }
}

/// The head of a non-empty trail always sits at normalized offset 0, and
/// when the trail holds more than one glyph its last element sits at offset
/// exactly 1000, by the offset formula `i * 1000 / (len - 1)`.
pub proof fn lemma_trail_offset_endpoints(c: RainColumn)
    requires
        c.characters@.len() >= 1,
    ensures
        c.spec_trail_positions()[0].2 == 0,
        c.characters@.len() > 1 ==> c.spec_trail_positions()[c.characters@.len() - 1].2 == 1000,
{
    if c.characters@.len() > 1 {
        let len = c.characters@.len() as int;
        assert((len - 1) * 1000 / (len - 1) == 1000) by (nonlinear_arith)
            requires len > 1,
        ;
    }
}

/// A column whose head is still above the surface — as immediately after
/// creation or reset — is never off-surface, whatever the surface size.
pub proof fn lemma_fresh_column_on_surface(
    c: RainColumn,
    screen_height_px: u32,
    char_height_milli: u64,
)
    requires
        c.y_milli < 0,
        char_height_milli >= 1,
    ensures
        !c.spec_off_screen(screen_height_px, char_height_milli),
{
    assert(screen_height_px * 1000 / char_height_milli as int >= 0);
}

} // verus!
