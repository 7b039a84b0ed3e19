//! Speed tiers for the rain animation.
//!
//! Each tier bundles three derived constants: how often the simulation ticks,
//! how fast a column's head falls per tick (in thousandths of a cell), and how
//! long a trail may grow. The constants are strictly monotonic across the
//! ordered tier sequence: slower tiers tick less often, fall slower and drag
//! longer trails.

use vstd::prelude::*;

verus! {

/// Available speed settings for the rain animation, slowest first.
#[derive(Clone, Copy, Debug, PartialEq, Eq, Structural)]
pub enum RainSpeed {
    /// Very slow rain
    VerySlow,
    /// Slow rain
    Slow,
    /// Medium speed (default)
    Medium,
    /// Fast rain
    Fast,
    /// Very fast rain
    VeryFast,
}

impl RainSpeed {
    /// Position of this tier in the ordered sequence VerySlow → VeryFast.
    pub open spec fn tier_rank(self) -> int {
        match self {
            RainSpeed::VerySlow => 0,
            RainSpeed::Slow => 1,
            RainSpeed::Medium => 2,
            RainSpeed::Fast => 3,
            RainSpeed::VeryFast => 4,
        }
    }

    /// Milliseconds between simulation ticks for this tier.
    pub open spec fn spec_update_interval_ms(self) -> u64 {
        match self {
            RainSpeed::VerySlow => 150,
            RainSpeed::Slow => 100,
            RainSpeed::Medium => 50,
            RainSpeed::Fast => 30,
            RainSpeed::VeryFast => 15,
        }
    }

    /// Base fall speed in thousandths of a cell per tick (baseline 1000).
    pub open spec fn spec_speed_multiplier_milli(self) -> u32 {
        match self {
            RainSpeed::VerySlow => 500,
            RainSpeed::Slow => 750,
            RainSpeed::Medium => 1000,
            RainSpeed::Fast => 1500,
            RainSpeed::VeryFast => 2000,
        }
    }

    /// Base cap on the trail length, in glyphs.
    pub open spec fn spec_max_trail_length(self) -> usize {
        match self {
            RainSpeed::VerySlow => 30,
            RainSpeed::Slow => 25,
            RainSpeed::Medium => 20,
            RainSpeed::Fast => 15,
            RainSpeed::VeryFast => 12,
        }
    }

    /// Get the update interval in milliseconds.
    /// This determines how often the rain animation updates.
    pub fn update_interval_ms(&self) -> (r: u64)
        ensures
            r == self.spec_update_interval_ms(),
    {
        match self {
            RainSpeed::VerySlow => 150,
            RainSpeed::Slow => 100,
            RainSpeed::Medium => 50,
            RainSpeed::Fast => 30,
            RainSpeed::VeryFast => 15,
        }
    }

    /// Get the base speed multiplier in thousandths of a cell per tick.
    /// Higher values mean faster falling characters.
    pub fn speed_multiplier_milli(&self) -> (r: u32)
        ensures
            r == self.spec_speed_multiplier_milli(),
    {
        match self {
            RainSpeed::VerySlow => 500,
            RainSpeed::Slow => 750,
            RainSpeed::Medium => 1000,
            RainSpeed::Fast => 1500,
            RainSpeed::VeryFast => 2000,
        }
    }

    /// Get the maximum trail length for this speed.
    /// Faster speeds have shorter trails for visual balance.
    pub fn max_trail_length(&self) -> (r: usize)
        ensures
            r == self.spec_max_trail_length(),
    {
        match self {
            RainSpeed::VerySlow => 30,
            RainSpeed::Slow => 25,
            RainSpeed::Medium => 20,
            RainSpeed::Fast => 15,
            RainSpeed::VeryFast => 12,
        }
    }

    /// Get all available speed settings, slowest first.
    pub fn all_speeds() -> (r: Vec<RainSpeed>)
        ensures
            r@ == seq![
                RainSpeed::VerySlow,
                RainSpeed::Slow,
                RainSpeed::Medium,
                RainSpeed::Fast,
                RainSpeed::VeryFast,
            ],
    {
        let mut v: Vec<RainSpeed> = Vec::new();
        v.push(RainSpeed::VerySlow);
        v.push(RainSpeed::Slow);
        v.push(RainSpeed::Medium);
        v.push(RainSpeed::Fast);
        v.push(RainSpeed::VeryFast);
        proof {
            assert(v@ =~= seq![
                RainSpeed::VerySlow,
                RainSpeed::Slow,
                RainSpeed::Medium,
                RainSpeed::Fast,
                RainSpeed::VeryFast,
            ]);
        }
        v
    }
}

impl Default for RainSpeed {
    /// The default tier is Medium, the baseline with multiplier 1000.
    fn default() -> (r: Self)
        ensures
            r == RainSpeed::Medium,
    {
        RainSpeed::Medium
    }
}

/// Law: tick interval, speed multiplier and maximum trail length are each
/// strictly monotonic across the ordered tier sequence — a strictly slower
/// tier has a strictly longer interval, a strictly smaller multiplier and a
/// strictly longer maximum trail.
pub proof fn lemma_speed_tiers_monotonic(a: RainSpeed, b: RainSpeed)
    requires
        a.tier_rank() < b.tier_rank(),
    ensures
        a.spec_update_interval_ms() > b.spec_update_interval_ms(),
        a.spec_speed_multiplier_milli() < b.spec_speed_multiplier_milli(),
        a.spec_max_trail_length() > b.spec_max_trail_length(),
{
}

} // verus!
