//! The rain engine: owns every column, advances the simulation, and
//! composes the drawable records of a frame.
//!
//! The engine keeps two independent column populations: the bright
//! foreground layer, one column per character slot across the surface, and
//! an optional sparser, slower, dimmer background layer on every 3rd slot
//! that serves as a depth cue. A frame is composed back-to-front: all
//! background records precede all foreground records in the batch.

use vstd::prelude::*;
use crate::colors::ColorScheme;
use crate::column::{jittered_speed, RainColumn, MAX_BASE_SPEED_MILLI, TRAIL_CAP_LIMIT};
use crate::config::ScreenSaverConfig;
use crate::rendering::{Color, RenderChar, Renderer};
use crate::speed::RainSpeed;
use crate::rng::{fresh_rng, rng_below, rng_range_usize};

verus! {

/// The fixed font size, in thousandths of a point.
pub const FONT_SIZE_MILLI: u32 = 16_000;

/// The background layer's font size: 90% of the base, for depth.
pub const BG_FONT_SIZE_MILLI: u32 = 14_400;

/// Width of a character cell, in thousandths of a pixel (0.6 of the font
/// size: a monospace approximation).
pub const CELL_WIDTH_MILLI: u64 = 9_600;

/// Height of a character cell, in thousandths of a pixel (1.2 of the font
/// size, including line spacing).
pub const CELL_HEIGHT_MILLI: u64 = 19_200;

/// How many foreground columns a surface of the given pixel width carries:
/// one per character cell, rounding up.
pub open spec fn spec_num_columns(width_px: u32) -> int {
    (width_px as int * 1000 + CELL_WIDTH_MILLI as int - 1) / (CELL_WIDTH_MILLI as int)
}

/// How many background columns a field of `num_columns` slots carries when
/// the background layer is enabled: one per every 3rd slot, rounding up.
pub open spec fn spec_num_background_columns(num_columns: int) -> int {
    (num_columns + 2) / 3
}

/// The drawable record of trail index `i` of a column: its glyph, its pixel
/// position, the scheme's color at its normalized trail offset (alpha scaled
/// to 30% for the dim background layer), and the layer's font size.
pub open spec fn spec_record(
    col: RainColumn,
    scheme: ColorScheme,
    dim: bool,
    i: int,
) -> RenderChar {
    let len = col.characters@.len() as int;
    let off = crate::column::spec_trail_offset_milli(len, i) as u32;
    let tone = scheme.spec_tone_at(off);
    let alpha = ColorScheme::spec_alpha_at(off);
    let y_pos = col.y_milli - i * 1000;
    RenderChar {
        character: col.characters@[i],
        x_milli: (col.x as int * CELL_WIDTH_MILLI as int) as u64,
        y_milli: (y_pos * CELL_HEIGHT_MILLI as int / 1000) as u64,
        color: Color {
            r: tone.0,
            g: tone.1,
            b: tone.2,
            a_milli: if dim {
                (alpha * 3 / 10) as u16
            } else {
                alpha
            },
        },
        font_size_milli: if dim {
            BG_FONT_SIZE_MILLI
        } else {
            FONT_SIZE_MILLI
        },
    }
}

/// Whether trail index `i` of a column is visible on a surface of the given
/// pixel height: its cell position is not above the top edge and its pixel
/// position not below the bottom edge.
pub open spec fn spec_visible(col: RainColumn, screen_height_px: u32, i: int) -> bool {
    let y_pos = col.y_milli - i * 1000;
    y_pos >= 0 && y_pos * CELL_HEIGHT_MILLI as int / 1000 <= screen_height_px as int * 1000
}

/// The drawable records of one column's trail from index `i` on, in trail
/// order, keeping only the visible glyphs.
pub open spec fn spec_records_from(
    col: RainColumn,
    scheme: ColorScheme,
    screen_height_px: u32,
    dim: bool,
    i: int,
) -> Seq<RenderChar>
    decreases col.characters@.len() - i,
{
    if i < 0 || i >= col.characters@.len() {
        Seq::<RenderChar>::empty()
    } else {
        let rest = spec_records_from(col, scheme, screen_height_px, dim, i + 1);
        if spec_visible(col, screen_height_px, i) {
            seq![spec_record(col, scheme, dim, i)] + rest
        } else {
            rest
        }
    }
}

/// The drawable records of one whole column.
pub open spec fn spec_column_records(
    col: RainColumn,
    scheme: ColorScheme,
    screen_height_px: u32,
    dim: bool,
) -> Seq<RenderChar> {
    spec_records_from(col, scheme, screen_height_px, dim, 0)
}

/// The drawable records of the columns from index `i` on: each active
/// column's records in column order; inactive columns contribute nothing.
pub open spec fn spec_layer_records(
    cols: Seq<RainColumn>,
    scheme: ColorScheme,
    screen_height_px: u32,
    dim: bool,
    i: int,
) -> Seq<RenderChar>
    decreases cols.len() - i,
{
    if i < 0 || i >= cols.len() {
        Seq::<RenderChar>::empty()
    } else {
        let here = if cols[i].active {
            spec_column_records(cols[i], scheme, screen_height_px, dim)
        } else {
            Seq::<RenderChar>::empty()
        };
        here + spec_layer_records(cols, scheme, screen_height_px, dim, i + 1)
    }
}

/// A freshly built foreground column of the given tier: empty trail, head
/// 5 to 20 cells above the surface, active, and speed and cap jittered from
/// the tier's base values (70%-130% of the multiplier, 50%-100% of the cap).
pub open spec fn spec_fresh_fg_column(c: RainColumn, speed: RainSpeed) -> bool {
    &&& -20_000 <= c.y_milli <= -5_000
    &&& c.y_milli < 0
    &&& c.characters@.len() == 0
    &&& c.active
    &&& speed.spec_speed_multiplier_milli() * 700 / 1000 <= c.speed_milli
        <= speed.spec_speed_multiplier_milli() * 1300 / 1000
    &&& speed.spec_max_trail_length() / 2 <= c.max_length <= speed.spec_max_trail_length()
}

/// A freshly built background column of the given tier: as a foreground one,
/// but jittered from 60% of the tier's multiplier and from half the tier's
/// cap.
pub open spec fn spec_fresh_bg_column(c: RainColumn, speed: RainSpeed) -> bool {
    &&& -20_000 <= c.y_milli <= -5_000
    &&& c.y_milli < 0
    &&& c.characters@.len() == 0
    &&& c.active
    &&& (speed.spec_speed_multiplier_milli() * 3 / 5) * 700 / 1000 <= c.speed_milli
        <= (speed.spec_speed_multiplier_milli() * 3 / 5) * 1300 / 1000
    &&& (speed.spec_max_trail_length() / 2) / 2 <= c.max_length <= speed.spec_max_trail_length()
        / 2
}

/// How one tick of the field may change one column: a dormant column left
/// untouched, a fresh in-place reset (from scrolling off-surface or from
/// reactivation), or a plain advance of an active column's head with at
/// most one glyph appended. The slot, speed and trail cap never change.
pub open spec fn spec_ticked_column(pre: RainColumn, post: RainColumn) -> bool {
    &&& post.x == pre.x
    &&& post.speed_milli == pre.speed_milli
    &&& post.max_length == pre.max_length
    &&& {
        ||| (!pre.active && post == pre)
        ||| (post.active && -20_000 <= post.y_milli <= -5_000 && post.characters@.len() == 0)
        ||| (pre.active && post.y_milli == crate::column::spec_advanced_y(
            pre.y_milli as int,
            pre.speed_milli as int,
        ) && pre.characters@.len() <= post.characters@.len() <= pre.characters@.len() + 1)
    }
}

/// The main rain engine.
pub struct MatrixRain {
    /// Configuration
    config: ScreenSaverConfig,
    /// Foreground rain columns (the main bright rain)
    columns: Vec<RainColumn>,
    /// Background rain columns (the subtle depth layer)
    background_columns: Vec<RainColumn>,
    /// The engine's single pseudo-random source
    rng: rand::rngs::StdRng,
}

impl MatrixRain {
    /// The engine's current configuration.
    pub closed spec fn spec_config(self) -> ScreenSaverConfig {
        self.config
    }

    /// The foreground columns, in slot order.
    pub closed spec fn spec_columns(self) -> Seq<RainColumn> {
        self.columns@
    }

    /// The background columns, in slot order.
    pub closed spec fn spec_background_columns(self) -> Seq<RainColumn> {
        self.background_columns@
    }

    /// The engine's pseudo-random source.
    pub closed spec fn spec_rng(self) -> rand::rngs::StdRng {
        self.rng
    }

    /// Well-formedness: the surface has positive area, the foreground covers
    /// it with one well-formed column per slot, and the background layer is
    /// either absent or covers every 3rd slot.
    pub open spec fn wf(self) -> bool {
        &&& self.spec_config().wf()
        &&& self.spec_columns().len() == spec_num_columns(self.spec_config().screen_width)
        &&& forall|i: int|
            0 <= i < self.spec_columns().len() ==> (#[trigger] self.spec_columns()[i]).wf()
                && self.spec_columns()[i].x == i
        &&& self.spec_background_columns().len() == 0 || self.spec_background_columns().len()
            == spec_num_background_columns(self.spec_columns().len() as int)
        &&& forall|i: int|
            0 <= i < self.spec_background_columns().len() ==> (
            #[trigger] self.spec_background_columns()[i]).wf()
                && self.spec_background_columns()[i].x == 3 * i
    }

    /// The ordered record batch of one frame: the background layer's
    /// records (if the layer is enabled) followed by the foreground
    /// layer's, so that a sink drawing in order draws back-to-front.
    pub open spec fn spec_render_data(self) -> Seq<RenderChar> {
        let bg = if self.spec_config().enable_background_layer {
            spec_layer_records(
                self.spec_background_columns(),
                self.spec_config().color_scheme,
                self.spec_config().screen_height,
                true,
                0,
            )
        } else {
            Seq::<RenderChar>::empty()
        };
        bg + spec_layer_records(
            self.spec_columns(),
            self.spec_config().color_scheme,
            self.spec_config().screen_height,
            false,
            0,
        )
    }

    /// Create a new rain engine: one foreground column per character slot
    /// across the surface; if the background layer is enabled, one slower
    /// (60% speed), shorter (half cap) background column per every 3rd slot.
    pub fn new(config: ScreenSaverConfig) -> (m: MatrixRain)
        requires
            config.wf(),
        ensures
            m.wf(),
            m.spec_config() == config,
            m.spec_columns().len() == spec_num_columns(config.screen_width),
            config.enable_background_layer ==> m.spec_background_columns().len()
                == spec_num_background_columns(spec_num_columns(config.screen_width)),
            !config.enable_background_layer ==> m.spec_background_columns().len() == 0,
            forall|i: int|
                0 <= i < m.spec_columns().len() ==> spec_fresh_fg_column(
                    #[trigger] m.spec_columns()[i],
                    config.speed,
                ),
            forall|i: int|
                0 <= i < m.spec_background_columns().len() ==> spec_fresh_bg_column(
                    #[trigger] m.spec_background_columns()[i],
                    config.speed,
                ),
    {
        let mut rng = fresh_rng();

        let num_columns = num_columns_for_width(config.screen_width);
        let max_length = config.speed.max_trail_length();
        let base_speed = config.speed.speed_multiplier_milli();

        let mut columns: Vec<RainColumn> = Vec::new();
        let mut x: usize = 0;
        while x < num_columns
            invariant
                x <= num_columns,
                columns@.len() == x,
                max_length <= TRAIL_CAP_LIMIT,
                base_speed <= MAX_BASE_SPEED_MILLI,
                max_length == config.speed.spec_max_trail_length(),
                base_speed == config.speed.spec_speed_multiplier_milli(),
                forall|i: int|
                    0 <= i < x ==> (#[trigger] columns@[i]).wf() && columns@[i].x == i
                        && spec_fresh_fg_column(columns@[i], config.speed),
            decreases num_columns - x,
        {
            let column = RainColumn::new(x, max_length, base_speed, &mut rng);
            columns.push(column);
            x = x + 1;
        }

        let mut background_columns: Vec<RainColumn> = Vec::new();
        if config.enable_background_layer {
            // Background rain is slower (60% of normal speed) and shorter
            let bg_speed = base_speed * 3 / 5;
            let bg_max_length = max_length / 2;
            let bg_count = (num_columns + 2) / 3;
            let mut i: usize = 0;
            while i < bg_count
                invariant
                    i <= bg_count,
                    bg_count == spec_num_background_columns(num_columns as int),
                    num_columns + 2 <= usize::MAX,
                    3 * bg_count <= num_columns + 2,
                    background_columns@.len() == i,
                    bg_max_length <= TRAIL_CAP_LIMIT,
                    bg_speed <= MAX_BASE_SPEED_MILLI,
                    bg_speed == config.speed.spec_speed_multiplier_milli() * 3 / 5,
                    bg_max_length == config.speed.spec_max_trail_length() / 2,
                    forall|k: int|
                        0 <= k < i ==> (#[trigger] background_columns@[k]).wf()
                            && background_columns@[k].x == 3 * k
                            && spec_fresh_bg_column(background_columns@[k], config.speed),
                decreases bg_count - i,
            {
                let column = RainColumn::new(3 * i, bg_max_length, bg_speed, &mut rng);
                background_columns.push(column);
                i = i + 1;
            }
        }

        MatrixRain { config, columns, background_columns, rng }
    }

    /// Advance the whole field one tick. Each layer makes two passes: first
    /// every column ticks, and one that has scrolled fully off the surface
    /// is reset in place with a small probability (0.1 foreground, 0.05
    /// background), else deactivated; separately, each inactive column is
    /// reactivated with a smaller probability (0.01 foreground, 0.005
    /// background). A column deactivated in the first pass can only be
    /// reactivated by a later tick's second pass. Column counts are
    /// preserved, and each column changes only as one tick may change it.
    pub fn update(&mut self)
        requires
            old(self).wf(),
        ensures
            final(self).wf(),
            final(self).spec_config() == old(self).spec_config(),
            final(self).spec_columns().len() == old(self).spec_columns().len(),
            final(self).spec_background_columns().len() == old(self).spec_background_columns().len(),
            forall|i: int|
                0 <= i < final(self).spec_columns().len() ==> spec_ticked_column(
                    old(self).spec_columns()[i],
                    #[trigger] final(self).spec_columns()[i],
                ),
            old(self).spec_config().enable_background_layer ==> forall|i: int|
                0 <= i < final(self).spec_background_columns().len() ==> spec_ticked_column(
                    old(self).spec_background_columns()[i],
                    #[trigger] final(self).spec_background_columns()[i],
                ),
            !old(self).spec_config().enable_background_layer ==> final(self).spec_background_columns() == old(self).spec_background_columns(),
    {
        let char_set = self.config.character_set;
        let screen_height = self.config.screen_height;

        // First pass: tick the foreground; a column that went off-surface
        // is reset with probability 0.1, else deactivated. The pre-tick
        // active flags are remembered: a column deactivated here must wait
        // for a later tick's second pass before it can wake again.
        let n = self.columns.len();
        let mut was_active: Vec<bool> = Vec::new();
        let mut i: usize = 0;
        while i < n
            invariant
                i <= n,
                n == self.columns@.len(),
                self.config == old(self).config,
                self.background_columns@ == old(self).background_columns@,
                char_set == self.config.character_set,
                screen_height == self.config.screen_height,
                was_active@.len() == i,
                forall|k: int|
                    0 <= k < i ==> was_active@[k] == old(self).spec_columns()[k].active,
                forall|k: int| 0 <= k < n ==> (#[trigger] self.columns@[k]).wf(),
                forall|k: int|
                    0 <= k < i ==> spec_ticked_column(
                        old(self).spec_columns()[k],
                        #[trigger] self.columns@[k],
                    ),
                forall|k: int|
                    i <= k < n ==> (#[trigger] self.columns@[k]) == old(self).spec_columns()[k],
            decreases n - i,
        {
            let ghost prev = self.columns@;
            let mut col = self.columns.remove(i);
            was_active.push(col.active);
            col.update(&char_set, &mut self.rng);

            if col.is_off_screen(screen_height, CELL_HEIGHT_MILLI) {
                // Small chance to start over at once, else go dormant
                if rng_below(&mut self.rng, 1000) < 100 {
                    col.reset(&mut self.rng);
                } else {
                    col.active = false;
                }
            }
            self.columns.insert(i, col);
            proof {
                assert(self.columns@ =~= prev.update(i as int, col));
                assert(spec_ticked_column(old(self).spec_columns()[i as int], col));
            }
            i = i + 1;
        }

        // Second pass: each foreground column that was already dormant when
        // the tick began (and still is) wakes up with probability 0.01; one
        // deactivated moments ago in the first pass is not eligible.
        let mut i: usize = 0;
        while i < n
            invariant
                i <= n,
                n == self.columns@.len(),
                self.config == old(self).config,
                self.background_columns@ == old(self).background_columns@,
                was_active@.len() == n,
                forall|k: int| 0 <= k < n ==> (#[trigger] self.columns@[k]).wf(),
                forall|k: int|
                    0 <= k < n ==> spec_ticked_column(
                        old(self).spec_columns()[k],
                        #[trigger] self.columns@[k],
                    ),
            decreases n - i,
        {
            if !was_active[i] && !self.columns[i].active {
                if rng_below(&mut self.rng, 1000) < 10 {
                    let ghost prev = self.columns@;
                    let mut col = self.columns.remove(i);
                    col.reset(&mut self.rng);
                    self.columns.insert(i, col);
                    proof {
                        assert(self.columns@ =~= prev.update(i as int, col));
                        assert(spec_ticked_column(old(self).spec_columns()[i as int], col));
                    }
                }
            }
            i = i + 1;
        }

        // The background layer mirrors the two passes with smaller
        // probabilities (0.05 to reset, 0.005 to wake), so it churns more
        // slowly and stays a calm depth cue. As in the foreground, only a
        // column already dormant at tick start may wake in the second pass.
        if self.config.enable_background_layer {
            let m = self.background_columns.len();
            let mut bg_was_active: Vec<bool> = Vec::new();
            let mut i: usize = 0;
            while i < m
                invariant
                    i <= m,
                    m == self.background_columns@.len(),
                    self.config == old(self).config,
                    self.columns@.len() == old(self).spec_columns().len(),
                    char_set == self.config.character_set,
                    screen_height == self.config.screen_height,
                    bg_was_active@.len() == i,
                    forall|k: int|
                        0 <= k < i ==> bg_was_active@[k] == old(self).spec_background_columns()[k].active,
                    forall|k: int| 0 <= k < self.columns@.len() ==> (#[trigger] self.columns@[k]).wf(),
                    forall|k: int|
                        0 <= k < self.columns@.len() ==> spec_ticked_column(
                            old(self).spec_columns()[k],
                            #[trigger] self.columns@[k],
                        ),
                    forall|k: int|
                        0 <= k < m ==> (#[trigger] self.background_columns@[k]).wf(),
                    forall|k: int|
                        0 <= k < i ==> spec_ticked_column(
                            old(self).spec_background_columns()[k],
                            #[trigger] self.background_columns@[k],
                        ),
                    forall|k: int|
                        i <= k < m ==> (#[trigger] self.background_columns@[k]) == old(self).spec_background_columns()[k],
                decreases m - i,
            {
                let ghost prev = self.background_columns@;
                let mut col = self.background_columns.remove(i);
                bg_was_active.push(col.active);
                col.update(&char_set, &mut self.rng);

                if col.is_off_screen(screen_height, CELL_HEIGHT_MILLI) {
                    if rng_below(&mut self.rng, 1000) < 50 {
                        col.reset(&mut self.rng);
                    } else {
                        col.active = false;
                    }
                }
                self.background_columns.insert(i, col);
                proof {
                    assert(self.background_columns@ =~= prev.update(i as int, col));
                    assert(spec_ticked_column(old(self).spec_background_columns()[i as int], col));
                }
                i = i + 1;
            }

            let mut i: usize = 0;
            while i < m
                invariant
                    i <= m,
                    m == self.background_columns@.len(),
                    self.config == old(self).config,
                    self.columns@.len() == old(self).spec_columns().len(),
                    bg_was_active@.len() == m,
                    forall|k: int| 0 <= k < self.columns@.len() ==> (#[trigger] self.columns@[k]).wf(),
                    forall|k: int|
                        0 <= k < self.columns@.len() ==> spec_ticked_column(
                            old(self).spec_columns()[k],
                            #[trigger] self.columns@[k],
                        ),
                    forall|k: int|
                        0 <= k < m ==> (#[trigger] self.background_columns@[k]).wf(),
                    forall|k: int|
                        0 <= k < m ==> spec_ticked_column(
                            old(self).spec_background_columns()[k],
                            #[trigger] self.background_columns@[k],
                        ),
                decreases m - i,
            {
                if !bg_was_active[i] && !self.background_columns[i].active {
                    if rng_below(&mut self.rng, 1000) < 5 {
                        let ghost prev = self.background_columns@;
                        let mut col = self.background_columns.remove(i);
                        col.reset(&mut self.rng);
                        self.background_columns.insert(i, col);
                        proof {
                            assert(self.background_columns@ =~= prev.update(i as int, col));
                            assert(spec_ticked_column(
                                old(self).spec_background_columns()[i as int],
                                col,
                            ));
                        }
                    }
                }
                i = i + 1;
            }
        }
    }

    /// Compose the current frame's record batch without touching a sink:
    /// the background layer's visible glyphs (if enabled), then the
    /// foreground layer's, each colored by the configured scheme.
    pub fn get_render_data(&self) -> (r: Vec<RenderChar>)
        requires
            self.wf(),
        ensures
            r@ == self.spec_render_data(),
    {
        let mut out: Vec<RenderChar> = Vec::new();
        if self.config.enable_background_layer {
            push_layer_records(
                &self.background_columns,
                &self.config.color_scheme,
                self.config.screen_height,
                true,
                &mut out,
            );
        }
        push_layer_records(
            &self.columns,
            &self.config.color_scheme,
            self.config.screen_height,
            false,
            &mut out,
        );
        out
    }

    /// Render the current frame into a sink: clear to black, hand over the
    /// composed batch in back-to-front order, and present.
    pub fn render<R: Renderer>(&self, renderer: &mut R)
        requires
            self.wf(),
    {
        renderer.clear(Color::black());
        let render_chars = self.get_render_data();
        renderer.draw_chars(render_chars.as_slice());
        renderer.present();
    }

    /// Get the current configuration.
    pub fn config(&self) -> (r: &ScreenSaverConfig)
        ensures
            *r == self.spec_config(),
    {
        &self.config
    }

    /// Replace the configuration. If the surface dimensions changed, both
    /// column populations are discarded and rebuilt from scratch (all
    /// in-flight trails are lost). Else, if only the speed tier changed,
    /// every column keeps its slot, trail, position and active flag, and
    /// only re-rolls its speed and cap from the new tier's base values. Any
    /// other change (character set, color scheme, background flag) keeps
    /// the columns untouched and takes effect on the next tick or render.
    pub fn set_config(&mut self, config: ScreenSaverConfig)
        requires
            old(self).wf(),
            config.wf(),
        ensures
            final(self).wf(),
            final(self).spec_config() == config,
            final(self).spec_columns().len() == spec_num_columns(config.screen_width),
            config.screen_width == old(self).spec_config().screen_width && config.screen_height
                == old(self).spec_config().screen_height ==> final(self).spec_columns().len()
                == old(self).spec_columns().len() && final(self).spec_background_columns().len()
                == old(self).spec_background_columns().len(),
            config.screen_width == old(self).spec_config().screen_width && config.screen_height
                == old(self).spec_config().screen_height ==> forall|i: int|
                0 <= i < final(self).spec_columns().len() ==> (
                #[trigger] final(self).spec_columns()[i]).x == old(self).spec_columns()[i].x
                    && final(self).spec_columns()[i].y_milli == old(self).spec_columns()[i].y_milli
                    && final(self).spec_columns()[i].characters@ == old(self).spec_columns()[i].characters@ && final(self).spec_columns()[i].active == old(self).spec_columns()[i].active,
            (config.screen_width != old(self).spec_config().screen_width || config.screen_height
                != old(self).spec_config().screen_height) ==> (
            config.enable_background_layer ==> final(self).spec_background_columns().len()
                == spec_num_background_columns(spec_num_columns(config.screen_width))) && (
            !config.enable_background_layer ==> final(self).spec_background_columns().len() == 0),
            config.screen_width == old(self).spec_config().screen_width && config.screen_height
                == old(self).spec_config().screen_height && config.speed == old(self).spec_config().speed ==> final(self).spec_columns() == old(self).spec_columns()
                && final(self).spec_background_columns() == old(self).spec_background_columns(),
            config.screen_width == old(self).spec_config().screen_width && config.screen_height
                == old(self).spec_config().screen_height && config.speed != old(self).spec_config().speed ==> forall|i: int|
                0 <= i < final(self).spec_columns().len()
                    ==> config.speed.spec_speed_multiplier_milli() * 700 / 1000 <= (
                #[trigger] final(self).spec_columns()[i]).speed_milli
                    <= config.speed.spec_speed_multiplier_milli() * 1300 / 1000
                    && config.speed.spec_max_trail_length() / 2 <= final(self).spec_columns()[i].max_length <= config.speed.spec_max_trail_length(),
            config.screen_width == old(self).spec_config().screen_width && config.screen_height
                == old(self).spec_config().screen_height ==> forall|i: int|
                0 <= i < final(self).spec_background_columns().len() ==> (
                #[trigger] final(self).spec_background_columns()[i]).x == old(self).spec_background_columns()[i].x
                    && final(self).spec_background_columns()[i].y_milli == old(self).spec_background_columns()[i].y_milli
                    && final(self).spec_background_columns()[i].characters@ == old(self).spec_background_columns()[i].characters@
                    && final(self).spec_background_columns()[i].active == old(self).spec_background_columns()[i].active,
            config.screen_width == old(self).spec_config().screen_width && config.screen_height
                == old(self).spec_config().screen_height && config.speed != old(self).spec_config().speed ==> forall|i: int|
                0 <= i < final(self).spec_background_columns().len()
                    ==> (config.speed.spec_speed_multiplier_milli() * 3 / 5) * 700 / 1000 <= (
                #[trigger] final(self).spec_background_columns()[i]).speed_milli
                    <= (config.speed.spec_speed_multiplier_milli() * 3 / 5) * 1300 / 1000
                    && config.speed.spec_max_trail_length() / 4
                    <= final(self).spec_background_columns()[i].max_length
                    <= config.speed.spec_max_trail_length() / 2,
            config.screen_width == old(self).spec_config().screen_width && config.screen_height
                == old(self).spec_config().screen_height && config.speed == old(self).spec_config().speed ==> final(self).spec_rng() == old(self).spec_rng(),
            (config.screen_width != old(self).spec_config().screen_width || config.screen_height
                != old(self).spec_config().screen_height) ==> forall|i: int|
                0 <= i < final(self).spec_columns().len() ==> spec_fresh_fg_column(
                    #[trigger] final(self).spec_columns()[i],
                    config.speed,
                ),
            (config.screen_width != old(self).spec_config().screen_width || config.screen_height
                != old(self).spec_config().screen_height) ==> forall|i: int|
                0 <= i < final(self).spec_background_columns().len() ==> spec_fresh_bg_column(
                    #[trigger] final(self).spec_background_columns()[i],
                    config.speed,
                ),
    {
        let dimensions_changed = config.screen_width != self.config.screen_width
            || config.screen_height != self.config.screen_height;
        let speed_changed = config.speed != self.config.speed;

        self.config = config;

        if dimensions_changed {
            let rebuilt = MatrixRain::new(config);
            *self = rebuilt;
        } else if speed_changed {
            let max_length = self.config.speed.max_trail_length();
            let base_speed = self.config.speed.speed_multiplier_milli();

            // Re-roll foreground speeds and caps with the construction
            // jitter: 70%-130% of the base speed, 50%-100% of the cap.
            let n = self.columns.len();
            let mut i: usize = 0;
            while i < n
                invariant
                    i <= n,
                    n == self.columns@.len(),
                    self.config == config,
                    max_length <= TRAIL_CAP_LIMIT,
                    base_speed <= MAX_BASE_SPEED_MILLI,
                    self.background_columns@ == old(self).spec_background_columns(),
                    forall|k: int|
                        0 <= k < n ==> (#[trigger] self.columns@[k]).wf() && self.columns@[k].x
                            == old(self).spec_columns()[k].x && self.columns@[k].y_milli == old(self).spec_columns()[k].y_milli && self.columns@[k].characters@ == old(self).spec_columns()[k].characters@ && self.columns@[k].active == old(self).spec_columns()[k].active,
                    forall|k: int|
                        0 <= k < i ==> base_speed * 700 / 1000 <= (
                        #[trigger] self.columns@[k]).speed_milli <= base_speed * 1300 / 1000
                            && max_length / 2 <= self.columns@[k].max_length <= max_length,
                decreases n - i,
            {
                let ghost prev = self.columns@;
                let mut col = self.columns.remove(i);
                col.speed_milli = jittered_speed(base_speed, &mut self.rng);
                col.max_length = rng_range_usize(&mut self.rng, max_length / 2, max_length);
                self.columns.insert(i, col);
                proof {
                    assert(self.columns@ =~= prev.update(i as int, col));
                }
                i = i + 1;
            }

            // Re-roll background speeds (60% of the base) and caps (a
            // quartered range), mirroring construction.
            let m = self.background_columns.len();
            let mut i: usize = 0;
            while i < m
                invariant
                    i <= m,
                    m == self.background_columns@.len(),
                    self.config == config,
                    max_length <= TRAIL_CAP_LIMIT,
                    base_speed <= MAX_BASE_SPEED_MILLI,
                    self.columns@.len() == old(self).spec_columns().len(),
                    forall|k: int|
                        0 <= k < self.columns@.len() ==> (#[trigger] self.columns@[k]).wf()
                            && self.columns@[k].x == old(self).spec_columns()[k].x
                            && self.columns@[k].y_milli == old(self).spec_columns()[k].y_milli
                            && self.columns@[k].characters@ == old(self).spec_columns()[k].characters@ && self.columns@[k].active == old(self).spec_columns()[k].active,
                    forall|k: int|
                        0 <= k < self.columns@.len() ==> base_speed * 700 / 1000 <= (
                        #[trigger] self.columns@[k]).speed_milli <= base_speed * 1300 / 1000
                            && max_length / 2 <= self.columns@[k].max_length <= max_length,
                    forall|k: int|
                        0 <= k < m ==> (#[trigger] self.background_columns@[k]).wf()
                            && self.background_columns@[k].x == old(self).spec_background_columns()[k].x && self.background_columns@[k].y_milli
                            == old(self).spec_background_columns()[k].y_milli
                            && self.background_columns@[k].characters@ == old(self).spec_background_columns()[k].characters@
                            && self.background_columns@[k].active == old(self).spec_background_columns()[k].active,
                    forall|k: int|
                        0 <= k < i ==> (base_speed * 3 / 5) * 700 / 1000 <= (
                        #[trigger] self.background_columns@[k]).speed_milli <= (base_speed * 3 / 5)
                            * 1300 / 1000 && max_length / 4 <= self.background_columns@[k].max_length
                            <= max_length / 2,
                decreases m - i,
            {
                let ghost prev = self.background_columns@;
                let mut col = self.background_columns.remove(i);
                col.speed_milli = jittered_speed(base_speed * 3 / 5, &mut self.rng);
                col.max_length = rng_range_usize(&mut self.rng, max_length / 4, max_length / 2);
                self.background_columns.insert(i, col);
                proof {
                    assert(self.background_columns@ =~= prev.update(i as int, col));
                }
                i = i + 1;
            }
        }
    }

    /// Get the number of active foreground columns.
    pub fn active_columns(&self) -> (r: usize)
        ensures
            r == spec_count_active(self.spec_columns()),
    {
        let n = self.columns.len();
        let mut count: usize = 0;
        let mut i: usize = 0;
        while i < n
            invariant
                i <= n,
                n == self.columns@.len(),
                count == spec_count_active(self.columns@.take(i as int)),
                count <= i,
            decreases n - i,
        {
            if self.columns[i].active {
                count = count + 1;
            }
            proof {
                assert(self.columns@.take(i as int + 1).drop_last() =~= self.columns@.take(
                    i as int,
                ));
            }
            i = i + 1;
        }
        proof {
            assert(self.columns@.take(n as int) =~= self.columns@);
        }
        count
    }

    /// Get the total number of foreground columns.
    pub fn total_columns(&self) -> (r: usize)
        ensures
            r == self.spec_columns().len(),
    {
        self.columns.len()
    }

    /// Get the total number of background columns (0 when the layer was
    /// disabled at the last build).
    pub fn total_background_columns(&self) -> (r: usize)
        ensures
            r == self.spec_background_columns().len(),
    {
        self.background_columns.len()
    }
}

/// How many of the columns are active.
pub open spec fn spec_count_active(cols: Seq<RainColumn>) -> int
    decreases cols.len(),
{
    if cols.len() == 0 {
        0
    } else {
        spec_count_active(cols.drop_last()) + if cols.last().active {
            1int
        } else {
            0int
        }
    }
}

/// The number of foreground columns a surface of the given pixel width
/// carries.
fn num_columns_for_width(width_px: u32) -> (n: usize)
    requires
        width_px >= 1,
    ensures
        n == spec_num_columns(width_px),
        1 <= n <= 0x2000_0000,
{
    proof {
        vstd::arithmetic::div_mod::lemma_div_is_ordered(
            1000,
            width_px as int * 1000 + CELL_WIDTH_MILLI as int - 1,
            CELL_WIDTH_MILLI as int,
        );
        vstd::arithmetic::div_mod::lemma_div_is_ordered(
            width_px as int * 1000 + CELL_WIDTH_MILLI as int - 1,
            0x2000_0000 * CELL_WIDTH_MILLI as int,
            CELL_WIDTH_MILLI as int,
        );
        assert(0x2000_0000 * CELL_WIDTH_MILLI as int / (CELL_WIDTH_MILLI as int) == 0x2000_0000)
            by (nonlinear_arith)
        ;
    }
    (((width_px as u64) * 1000 + (CELL_WIDTH_MILLI - 1)) / CELL_WIDTH_MILLI) as usize
}

/// Appends one column's visible records, in trail order.
fn push_column_records(
    col: &RainColumn,
    scheme: &ColorScheme,
    screen_height_px: u32,
    dim: bool,
    out: &mut Vec<RenderChar>,
)
    requires
        col.wf(),
        col.x <= 0xFFFF_FFFF,
    ensures
        final(out)@ == old(out)@ + spec_column_records(*col, *scheme, screen_height_px, dim),
{
    let x_milli: u64 = (col.x as u64) * CELL_WIDTH_MILLI;
    let len = col.characters.len();
    let mut i: usize = 0;
    proof {
        assert(old(out)@ + spec_records_from(*col, *scheme, screen_height_px, dim, 0) =~= out@
            + spec_records_from(*col, *scheme, screen_height_px, dim, 0));
    }
    while i < len
        invariant
            i <= len,
            len == col.characters@.len(),
            col.wf(),
            col.x <= 0xFFFF_FFFF,
            x_milli as int == col.x as int * CELL_WIDTH_MILLI as int,
            old(out)@ + spec_records_from(*col, *scheme, screen_height_px, dim, 0) == out@
                + spec_records_from(*col, *scheme, screen_height_px, dim, i as int),
        decreases len - i,
    {
        let ghost pre = out@;
        let y_pos: i64 = col.y_milli - (i as i64) * 1000;
        if y_pos >= 0 {
            let y_px: u64 = (y_pos as u64) * CELL_HEIGHT_MILLI / 1000;
            if y_px <= (screen_height_px as u64) * 1000 {
                let off: u32 = if len <= 1 {
                    0
                } else {
                    proof {
                        crate::column::lemma_trail_offset_in_range(len as int, i as int);
                    }
                    ((i as u64) * 1000 / ((len - 1) as u64)) as u32
                };
                let (r, g, b, a) = scheme.get_color_with_alpha(off);
                let a_milli: u16 = if dim {
                    a * 3 / 10
                } else {
                    a
                };
                out.push(
                    RenderChar {
                        character: col.characters[i],
                        x_milli,
                        y_milli: y_px,
                        color: Color { r, g, b, a_milli },
                        font_size_milli: if dim {
                            BG_FONT_SIZE_MILLI
                        } else {
                            FONT_SIZE_MILLI
                        },
                    },
                );
                proof {
                    assert(spec_visible(*col, screen_height_px, i as int));
                    assert(out@.last() == spec_record(*col, *scheme, dim, i as int));
                }
            } else {
                proof {
                    assert(!spec_visible(*col, screen_height_px, i as int));
                }
            }
        } else {
            proof {
                assert(!spec_visible(*col, screen_height_px, i as int));
            }
        }
        proof {
            assert(spec_records_from(*col, *scheme, screen_height_px, dim, i as int) == (
            if spec_visible(*col, screen_height_px, i as int) {
                seq![spec_record(*col, *scheme, dim, i as int)]
            } else {
                Seq::<RenderChar>::empty()
            }) + spec_records_from(*col, *scheme, screen_height_px, dim, i as int + 1));
            if spec_visible(*col, screen_height_px, i as int) {
                assert(pre + (seq![spec_record(*col, *scheme, dim, i as int)]
                    + spec_records_from(*col, *scheme, screen_height_px, dim, i as int + 1)) =~= out@
                    + spec_records_from(*col, *scheme, screen_height_px, dim, i as int + 1));
            } else {
                assert(pre + (Seq::<RenderChar>::empty() + spec_records_from(
                    *col,
                    *scheme,
                    screen_height_px,
                    dim,
                    i as int + 1,
                )) =~= out@ + spec_records_from(*col, *scheme, screen_height_px, dim, i as int + 1));
            }
        }
        i = i + 1;
    }
    proof {
        assert(spec_records_from(*col, *scheme, screen_height_px, dim, len as int) =~= Seq::<
            RenderChar,
        >::empty());
        assert(out@ + Seq::<RenderChar>::empty() =~= out@);
    }
}

/// Appends every active column's visible records, in column order.
fn push_layer_records(
    cols: &Vec<RainColumn>,
    scheme: &ColorScheme,
    screen_height_px: u32,
    dim: bool,
    out: &mut Vec<RenderChar>,
)
    requires
        forall|i: int| 0 <= i < cols@.len() ==> (#[trigger] cols@[i]).wf() && cols@[i].x
            <= 0xFFFF_FFFF,
    ensures
        final(out)@ == old(out)@ + spec_layer_records(cols@, *scheme, screen_height_px, dim, 0),
{
    let n = cols.len();
    let mut i: usize = 0;
    proof {
        assert(old(out)@ + spec_layer_records(cols@, *scheme, screen_height_px, dim, 0) =~= out@
            + spec_layer_records(cols@, *scheme, screen_height_px, dim, 0));
    }
    while i < n
        invariant
            i <= n,
            n == cols@.len(),
            forall|k: int| 0 <= k < cols@.len() ==> (#[trigger] cols@[k]).wf() && cols@[k].x
                <= 0xFFFF_FFFF,
            old(out)@ + spec_layer_records(cols@, *scheme, screen_height_px, dim, 0) == out@
                + spec_layer_records(cols@, *scheme, screen_height_px, dim, i as int),
        decreases n - i,
    {
        let ghost pre = out@;
        if cols[i].active {
            push_column_records(&cols[i], scheme, screen_height_px, dim, out);
        }
        proof {
            let here = if cols@[i as int].active {
                spec_column_records(cols@[i as int], *scheme, screen_height_px, dim)
            } else {
                Seq::<RenderChar>::empty()
            };
            assert(spec_layer_records(cols@, *scheme, screen_height_px, dim, i as int) == here
                + spec_layer_records(cols@, *scheme, screen_height_px, dim, i as int + 1));
            assert(pre + (here + spec_layer_records(
                cols@,
                *scheme,
                screen_height_px,
                dim,
                i as int + 1,
            )) =~= out@ + spec_layer_records(cols@, *scheme, screen_height_px, dim, i as int + 1));
        }
        i = i + 1;
    }
    proof {
        assert(spec_layer_records(cols@, *scheme, screen_height_px, dim, n as int) =~= Seq::<
            RenderChar,
        >::empty());
        assert(out@ + Seq::<RenderChar>::empty() =~= out@);
    }
}

} // verus!
