//! One stone of the grid and the rule that moves it.
//!
//! A stone counts down. While the countdown runs, each tick adds the stone's
//! velocity to its offsets and rotation. When it has run out, the tick
//! decides instead: the stone either rests for a fresh countdown or sets off,
//! at constant velocity, for a freshly sampled target. After either, the
//! colour that the stone is drawn with is worked out anew.

use vstd::prelude::*;
use crate::color::{lemma_shaded_is_valid, Rgb, Tone};
use crate::draw::{Draw, HALF, MAX_CYCLES, MIN_CYCLES, QUARTER_TURN};
use crate::fixed::{
    fraction, lemma_fraction_range, lemma_product_bound, lemma_product_magnitude,
    lemma_steps_stay_within, magnitude, product, ratio, times, toward_zero, UNIT,
};
use crate::params::{Parameters, MAX_SCALE};

verus! {

/// A stone whose offsets and rotation add up, in magnitude, to no more than
/// this many billionths is drawn black.
pub const EPSILON: i64 = 1_000;

/// The furthest that an offset gets from the stone's cell: two and a half
/// cells, in billionths.
pub const REACH: i64 = 2_500_000_000;

/// The furthest that a rotation gets from upright, in billionths of a radian.
pub const SWING: i64 = 3_926_990_815;

/// The mathematical value of a [`Stone`].
pub struct StoneModel {
    /// The column of the stone's cell.
    pub x: nat,
    /// The row of the stone's cell.
    pub y: nat,
    /// The number of rows of the grid that the stone lies in.
    pub rows: nat,
    pub offset_x: int,
    pub offset_y: int,
    pub rotation: int,
    pub velocity_x: int,
    pub velocity_y: int,
    pub spin: int,
    /// The ticks that are left until the stone decides again.
    pub cycles: nat,
    /// The colour that the stone was made with.
    pub base: Tone,
    /// The colour that the stone is drawn with.
    pub color: Tone,
}

/// An offset and the point that it is heading for both lie within `reach`.
pub open spec fn within(offset: int, velocity: int, cycles: nat, reach: int) -> bool {
    &&& -reach <= offset <= reach
    &&& -reach <= offset + cycles * velocity <= reach
}

impl StoneModel {
    /// A stone as it is made: in its cell, upright, at rest, with its
    /// countdown run out, and black.
    pub open spec fn fresh(x: nat, y: nat, rows: nat, base: Tone) -> StoneModel {
        StoneModel {
            x,
            y,
            rows,
            offset_x: 0,
            offset_y: 0,
            rotation: 0,
            velocity_x: 0,
            velocity_y: 0,
            spin: 0,
            cycles: 0,
            base,
            color: Tone::black(),
        }
    }

    /// What holds of every stone: its row lies in the grid, its countdown is
    /// shorter than the longest stretch, its offsets and rotation stay in
    /// reach now and for the rest of the stretch, and its colours are valid.
    pub open spec fn valid(self) -> bool {
        &&& self.y < self.rows
        &&& self.cycles < MAX_CYCLES
        &&& within(self.offset_x, self.velocity_x, self.cycles, REACH as int)
        &&& within(self.offset_y, self.velocity_y, self.cycles, REACH as int)
        &&& within(self.rotation, self.spin, self.cycles, SWING as int)
        &&& self.base.valid()
        &&& self.color.valid()
    }

    /// The depth factor: the stone's row as a fraction of the number of rows.
    pub open spec fn depth(self) -> int {
        fraction(self.y as int, self.rows as int)
    }

    /// The horizontal offset that the stone sets off for.
    pub open spec fn target_x(self, p: Parameters, d: Draw) -> int {
        product(d.x as int, product(self.depth(), p.displacement_scale as int))
    }

    /// The vertical offset that the stone sets off for.
    pub open spec fn target_y(self, p: Parameters, d: Draw) -> int {
        product(d.y as int, product(self.depth(), p.displacement_scale as int))
    }

    /// The rotation that the stone sets off for.
    pub open spec fn target_turn(self, p: Parameters, d: Draw) -> int {
        product(d.turn as int, product(self.depth(), p.rotation_scale as int))
    }

    /// The stone is at rest: it has no velocity.
    pub open spec fn resting(self) -> bool {
        self.velocity_x == 0 && self.velocity_y == 0 && self.spin == 0
    }

    /// The stone goes to rest for `cycles` ticks.
    pub open spec fn settle(self, cycles: nat) -> StoneModel {
        StoneModel { velocity_x: 0, velocity_y: 0, spin: 0, cycles, ..self }
    }

    /// The stone sets off for its target, to cover the way in `d.cycles`
    /// equal steps.
    pub open spec fn depart(self, p: Parameters, d: Draw) -> StoneModel {
        StoneModel {
            velocity_x: toward_zero(self.target_x(p, d) - self.offset_x, d.cycles as int),
            velocity_y: toward_zero(self.target_y(p, d) - self.offset_y, d.cycles as int),
            spin: toward_zero(self.target_turn(p, d) - self.rotation, d.cycles as int),
            cycles: d.cycles as nat,
            ..self
        }
    }

    /// The stone takes one step at its velocity.
    pub open spec fn glide(self) -> StoneModel {
        StoneModel {
            offset_x: self.offset_x + self.velocity_x,
            offset_y: self.offset_y + self.velocity_y,
            rotation: self.rotation + self.spin,
            cycles: (self.cycles - 1) as nat,
            ..self
        }
    }

    /// The first half of a tick: with the countdown run out the stone
    /// decides, resting when the chance exceeds the motion probability and
    /// setting off otherwise; with the countdown running it takes one step.
    pub open spec fn moved(self, p: Parameters, d: Draw) -> StoneModel {
        if self.cycles == 0 {
            if d.chance > p.motion {
                self.settle(d.cycles as nat)
            } else {
                self.depart(p, d)
            }
        } else {
            self.glide()
        }
    }

    /// The stone is visibly out of place.
    pub open spec fn displaced(self) -> bool {
        magnitude(self.offset_x) + magnitude(self.offset_y) + magnitude(self.rotation) > EPSILON
    }

    /// The second half of a tick: a stone out of place is drawn with its base
    /// colour shaded by its depth factor, any other stone black.
    pub open spec fn tinted(self) -> StoneModel {
        StoneModel {
            color: if self.displaced() {
                self.base.shaded(self.depth())
            } else {
                Tone::black()
            },
            ..self
        }
    }

    /// One tick.
    pub open spec fn tick(self, p: Parameters, d: Draw) -> StoneModel {
        self.moved(p, d).tinted()
    }
}

/// The targets of a stone lie in reach, whatever is drawn.
pub proof fn lemma_targets_in_reach(s: StoneModel, p: Parameters, d: Draw)
    requires
        s.y < s.rows,
        p.valid(),
        d.valid(),
    ensures
        0 <= s.depth() < UNIT,
        0 <= product(s.depth(), p.displacement_scale as int) <= MAX_SCALE,
        0 <= product(s.depth(), p.rotation_scale as int) <= MAX_SCALE,
        -REACH <= s.target_x(p, d) <= REACH,
        -REACH <= s.target_y(p, d) <= REACH,
        -SWING <= s.target_turn(p, d) <= SWING,
{
    lemma_fraction_range(s.y as int, s.rows as int);
    let slide = product(s.depth(), p.displacement_scale as int);
    let twist = product(s.depth(), p.rotation_scale as int);
    lemma_product_magnitude(s.depth(), p.displacement_scale as int);
    lemma_product_magnitude(s.depth(), p.rotation_scale as int);
    lemma_product_bound(s.depth(), p.displacement_scale as int, UNIT as int, MAX_SCALE as int);
    lemma_product_bound(s.depth(), p.rotation_scale as int, UNIT as int, MAX_SCALE as int);
    lemma_product_bound(d.x as int, slide, HALF as int, MAX_SCALE as int);
    lemma_product_bound(d.y as int, slide, HALF as int, MAX_SCALE as int);
    lemma_product_bound(d.turn as int, twist, QUARTER_TURN as int, MAX_SCALE as int);
}

/// A stone that sets off from within reach for a target within reach stays
/// within reach.
pub proof fn lemma_depart_within(offset: int, target: int, cycles: nat, reach: int)
    requires
        -reach <= offset <= reach,
        -reach <= target <= reach,
        0 < cycles,
    ensures
        within(offset, toward_zero(target - offset, cycles as int), cycles, reach),
{
    lemma_steps_stay_within(target - offset, cycles as int);
}

/// One step of a stone that stays within reach leaves it within reach.
pub proof fn lemma_glide_within(offset: int, velocity: int, cycles: nat, reach: int)
    requires
        within(offset, velocity, cycles, reach),
        0 < cycles,
    ensures
        within(offset + velocity, velocity, (cycles - 1) as nat, reach),
        (offset + velocity) + (cycles - 1) * velocity == offset + cycles * velocity,
{
    assert((offset + velocity) + (cycles - 1) * velocity == offset + cycles * velocity)
        by (nonlinear_arith);
    assert(velocity >= 0 ==> 0 <= velocity <= cycles * velocity) by (nonlinear_arith)
        requires
            0 < cycles,
    ;
    assert(velocity <= 0 ==> cycles * velocity <= velocity <= 0) by (nonlinear_arith)
        requires
            0 < cycles,
    ;
}

/// A tick keeps a valid stone valid.
pub proof fn lemma_tick_keeps_valid(s: StoneModel, p: Parameters, d: Draw)
    requires
        s.valid(),
        p.valid(),
        d.valid(),
    ensures
        s.moved(p, d).valid(),
        s.tick(p, d).valid(),
{
    lemma_targets_in_reach(s, p, d);
    if s.cycles == 0 {
        if d.chance > p.motion {
            assert(d.cycles as nat * 0 == 0);
        } else {
            lemma_depart_within(s.offset_x, s.target_x(p, d), d.cycles as nat, REACH as int);
            lemma_depart_within(s.offset_y, s.target_y(p, d), d.cycles as nat, REACH as int);
            lemma_depart_within(s.rotation, s.target_turn(p, d), d.cycles as nat, SWING as int);
        }
    } else {
        lemma_glide_within(s.offset_x, s.velocity_x, s.cycles, REACH as int);
        lemma_glide_within(s.offset_y, s.velocity_y, s.cycles, REACH as int);
        lemma_glide_within(s.rotation, s.spin, s.cycles, SWING as int);
    }
    let m = s.moved(p, d);
    assert(m.valid());
    lemma_shaded_is_valid(m.base, m.depth());
}

/// One stone of the grid.
///
/// The fields are private: a stone is made by [`Stone::new`] and changes only
/// by its ticks, so that every stone is valid in the sense of
/// [`StoneModel::valid`].
#[derive(Clone, Copy, Debug)]
pub struct Stone {
    x: u32,
    y: u32,
    rows: u32,
    offset_x: i64,
    offset_y: i64,
    rotation: i64,
    velocity_x: i64,
    velocity_y: i64,
    spin: i64,
    cycles: u32,
    base: Rgb,
    color: Rgb,
}

impl View for Stone {
    type V = StoneModel;

    closed spec fn view(&self) -> StoneModel {
        StoneModel {
            x: self.x as nat,
            y: self.y as nat,
            rows: self.rows as nat,
            offset_x: self.offset_x as int,
            offset_y: self.offset_y as int,
            rotation: self.rotation as int,
            velocity_x: self.velocity_x as int,
            velocity_y: self.velocity_y as int,
            spin: self.spin as int,
            cycles: self.cycles as nat,
            base: self.base@,
            color: self.color@,
        }
    }
}

impl Stone {
    #[verifier::type_invariant]
    closed spec fn well_formed(self) -> bool {
        self@.valid()
    }

    /// Makes the stone of column `x` and row `y` in a grid of `rows` rows,
    /// with the base colour `base`.
    ///
    /// The stone is black from the start. Its first tick only decides, so it
    /// is still black after that tick; it takes colour once it has moved.
    pub fn new(x: u32, y: u32, rows: u32, base: Rgb) -> (s: Stone)
        requires
            y < rows,
            base@.valid(),
        ensures
            s@ == StoneModel::fresh(x as nat, y as nat, rows as nat, base@),
            s@.valid(),
    {
        Stone {
            x,
            y,
            rows,
            offset_x: 0,
            offset_y: 0,
            rotation: 0,
            velocity_x: 0,
            velocity_y: 0,
            spin: 0,
            cycles: 0,
            base,
            color: Rgb::black(),
        }
    }

    /// The column of the stone's cell.
    pub fn x(&self) -> (v: u32)
        ensures
            v == self@.x,
    {
        self.x
    }

    /// The row of the stone's cell.
    pub fn y(&self) -> (v: u32)
        ensures
            v == self@.y,
    {
        self.y
    }

    /// The number of rows of the grid that the stone lies in.
    pub fn rows(&self) -> (v: u32)
        ensures
            v == self@.rows,
            self@.y < v,
    {
        proof {
            use_type_invariant(self);
        }
        self.rows
    }

    /// The horizontal offset from the cell, in billionths of a cell.
    pub fn offset_x(&self) -> (v: i64)
        ensures
            v == self@.offset_x,
            -REACH <= v <= REACH,
    {
        proof {
            use_type_invariant(self);
        }
        self.offset_x
    }

    /// The vertical offset from the cell, in billionths of a cell.
    pub fn offset_y(&self) -> (v: i64)
        ensures
            v == self@.offset_y,
            -REACH <= v <= REACH,
    {
        proof {
            use_type_invariant(self);
        }
        self.offset_y
    }

    /// The rotation, in billionths of a radian.
    pub fn rotation(&self) -> (v: i64)
        ensures
            v == self@.rotation,
            -SWING <= v <= SWING,
    {
        proof {
            use_type_invariant(self);
        }
        self.rotation
    }

    /// What a tick adds to the horizontal offset while the countdown runs.
    pub fn velocity_x(&self) -> (v: i64)
        ensures
            v == self@.velocity_x,
    {
        self.velocity_x
    }

    /// What a tick adds to the vertical offset while the countdown runs.
    pub fn velocity_y(&self) -> (v: i64)
        ensures
            v == self@.velocity_y,
    {
        self.velocity_y
    }

    /// What a tick adds to the rotation while the countdown runs.
    pub fn spin(&self) -> (v: i64)
        ensures
            v == self@.spin,
    {
        self.spin
    }

    /// The ticks that are left until the stone decides again.
    pub fn cycles(&self) -> (v: u32)
        ensures
            v == self@.cycles,
            v < MAX_CYCLES,
    {
        proof {
            use_type_invariant(self);
        }
        self.cycles
    }

    /// The colour that the stone was made with.
    pub fn base_color(&self) -> (c: Rgb)
        ensures
            c@ == self@.base,
            c@.valid(),
    {
        proof {
            use_type_invariant(self);
        }
        self.base
    }

    /// The colour that the stone is drawn with.
    pub fn color(&self) -> (c: Rgb)
        ensures
            c@ == self@.color,
            c@.valid(),
    {
        proof {
            use_type_invariant(self);
        }
        self.color
    }

    /// The depth factor: the stone's row as a fraction of the number of rows,
    /// in billionths.
    pub fn depth(&self) -> (f: i64)
        ensures
            f == self@.depth(),
            0 <= f < UNIT,
    {
        proof {
            use_type_invariant(self);
            lemma_fraction_range(self.y as int, self.rows as int);
        }
        ratio(self.y, self.rows)
    }

    /// Goes to rest for `cycles` ticks.
    pub(crate) fn settle(&mut self, cycles: u32)
        requires
            cycles < MAX_CYCLES,
        ensures
            final(self)@ == old(self)@.settle(cycles as nat),
    {
        proof {
            use_type_invariant(&*self);
            assert(cycles as nat * 0 == 0);
        }
        *self = Stone { velocity_x: 0, velocity_y: 0, spin: 0, cycles, ..*self };
    }

    /// Sets off for the target that `draw` samples, to cover the way in
    /// `draw.cycles` equal steps.
    pub(crate) fn depart(&mut self, params: &Parameters, draw: &Draw)
        requires
            params.valid(),
            draw.valid(),
        ensures
            final(self)@ == old(self)@.depart(*params, *draw),
    {
        proof {
            use_type_invariant(&*self);
            lemma_targets_in_reach(self@, *params, *draw);
            lemma_depart_within(
                self@.offset_x,
                self@.target_x(*params, *draw),
                draw.cycles as nat,
                REACH as int,
            );
            lemma_depart_within(
                self@.offset_y,
                self@.target_y(*params, *draw),
                draw.cycles as nat,
                REACH as int,
            );
            lemma_depart_within(
                self@.rotation,
                self@.target_turn(*params, *draw),
                draw.cycles as nat,
                SWING as int,
            );
        }
        let depth = self.depth();
        let slide = times(depth, params.displacement_scale);
        let twist = times(depth, params.rotation_scale);
        let target_x = times(draw.x, slide);
        let target_y = times(draw.y, slide);
        let target_turn = times(draw.turn, twist);
        let steps: i64 = draw.cycles as i64;
        *self = Stone {
            velocity_x: (target_x - self.offset_x) / steps,
            velocity_y: (target_y - self.offset_y) / steps,
            spin: (target_turn - self.rotation) / steps,
            cycles: draw.cycles,
            ..*self
        };
    }

    /// Takes one step at the stone's velocity.
    pub(crate) fn glide(&mut self)
        requires
            old(self)@.cycles > 0,
        ensures
            final(self)@ == old(self)@.glide(),
    {
        proof {
            use_type_invariant(&*self);
            lemma_glide_within(self@.offset_x, self@.velocity_x, self@.cycles, REACH as int);
            lemma_glide_within(self@.offset_y, self@.velocity_y, self@.cycles, REACH as int);
            lemma_glide_within(self@.rotation, self@.spin, self@.cycles, SWING as int);
        }
        *self = Stone {
            offset_x: self.offset_x + self.velocity_x,
            offset_y: self.offset_y + self.velocity_y,
            rotation: self.rotation + self.spin,
            cycles: self.cycles - 1,
            ..*self
        };
    }

    /// Tells whether the stone is visibly out of place.
    pub fn is_displaced(&self) -> (out: bool)
        ensures
            out == self@.displaced(),
    {
        proof {
            use_type_invariant(self);
        }
        let across: i64 = if self.offset_x < 0 {
            -self.offset_x
        } else {
            self.offset_x
        };
        let down: i64 = if self.offset_y < 0 {
            -self.offset_y
        } else {
            self.offset_y
        };
        let round: i64 = if self.rotation < 0 {
            -self.rotation
        } else {
            self.rotation
        };
        across + down + round > EPSILON
    }

    /// Works out the colour that the stone is drawn with.
    pub(crate) fn tint(&mut self)
        ensures
            final(self)@ == old(self)@.tinted(),
    {
        proof {
            use_type_invariant(&*self);
        }
        let color = if self.is_displaced() {
            let depth = self.depth();
            self.base.shaded(depth)
        } else {
            Rgb::black()
        };
        *self = Stone { color, ..*self };
    }

    /// Advances the stone by one tick, taking from `draw` what the tick
    /// leaves to chance.
    ///
    /// A stone whose countdown runs reads nothing of `draw`. A stone that
    /// goes to rest reads only `draw.cycles`.
    pub fn tick(&mut self, params: &Parameters, draw: &Draw)
        requires
            params.valid(),
            draw.valid(),
        ensures
            final(self)@ == old(self)@.tick(*params, *draw),
            final(self)@.valid(),
    {
        if self.cycles == 0 {
            if draw.chance > params.motion {
                self.settle(draw.cycles);
            } else {
                self.depart(params, draw);
            }
        } else {
            self.glide();
        }
        self.tint();
        proof {
            use_type_invariant(&*self);
        }
    }

    /// Advances the stone by one tick, sampling what the tick leaves to
    /// chance.
    ///
    /// Nothing is sampled while the countdown runs. The new state is that of
    /// [`Stone::tick`] for some valid draw.
    pub fn update(&mut self, params: &Parameters)
        requires
            params.valid(),
        ensures
            follows(old(self)@, final(self)@, *params),
            final(self)@.valid(),
    {
        if self.cycles == 0 {
            let draw = Draw::sample(params.motion);
            self.tick(params, &draw);
        } else {
            let ghost idle = Draw { chance: 0, cycles: MIN_CYCLES, x: 0, y: 0, turn: 0 };
            let ghost before = self@;
            self.glide();
            self.tint();
            proof {
                use_type_invariant(&*self);
                assert(self@ == before.tick(*params, idle));
            }
        }
    }
}

/// `after` is what one tick makes of `before`, for some valid draw.
pub open spec fn follows(before: StoneModel, after: StoneModel, p: Parameters) -> bool {
    exists|d: Draw| d.valid() && after == #[trigger] before.tick(p, d)
}

} // verus!
