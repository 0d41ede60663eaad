//! What holds of the motion rule, whatever is drawn.
//!
//! Each law is stated over the mathematical values of stones, parameters and
//! draws, and over [`run`], which applies one tick for each draw of a
//! sequence.

use vstd::prelude::*;
use crate::color::Tone;
use crate::draw::{Draw, MAX_CYCLES, MIN_CYCLES};
use crate::fixed::{
    lemma_fraction_monotone, lemma_fraction_range, lemma_product_grows, lemma_product_magnitude,
    lemma_steps_stay_within, magnitude, product, toward_zero, UNIT,
};
use crate::params::Parameters;
use crate::stone::{lemma_tick_keeps_valid, StoneModel};

verus! {

/// The stone after one tick for each draw of `draws`, in order.
pub open spec fn run(s: StoneModel, p: Parameters, draws: Seq<Draw>) -> StoneModel
    decreases draws.len(),
{
    if draws.len() == 0 {
        s
    } else {
        run(s, p, draws.drop_last()).tick(p, draws.last())
    }
}

/// Every draw of the sequence is valid.
pub open spec fn all_valid(draws: Seq<Draw>) -> bool {
    forall|i: int| 0 <= i < draws.len() ==> (#[trigger] draws[i]).valid()
}

/// No draw of the sequence has a chance of exactly zero.
pub open spec fn no_zero_chance(draws: Seq<Draw>) -> bool {
    forall|i: int| 0 <= i < draws.len() ==> (#[trigger] draws[i]).chance > 0
}

/// The stone lies in its cell, upright.
pub open spec fn at_home(s: StoneModel) -> bool {
    s.offset_x == 0 && s.offset_y == 0 && s.rotation == 0
}

/// Any number of ticks keeps a valid stone valid and in its cell of the grid.
pub proof fn law_run_keeps_valid(s: StoneModel, p: Parameters, draws: Seq<Draw>)
    requires
        s.valid(),
        p.valid(),
        all_valid(draws),
    ensures
        run(s, p, draws).valid(),
        run(s, p, draws).x == s.x,
        run(s, p, draws).y == s.y,
        run(s, p, draws).rows == s.rows,
        run(s, p, draws).base == s.base,
    decreases draws.len(),
{
    if draws.len() > 0 {
        law_run_keeps_valid(s, p, draws.drop_last());
        lemma_tick_keeps_valid(run(s, p, draws.drop_last()), p, draws.last());
    }
}

/// A stone as it is made lies in its cell, upright, at rest, with its
/// countdown run out, and black; and after its first tick, which only
/// decides, it still lies in its cell, upright and black.
pub proof fn law_fresh_stone_is_dark(
    x: nat,
    y: nat,
    rows: nat,
    base: Tone,
    p: Parameters,
    d: Draw,
)
    ensures
        at_home(StoneModel::fresh(x, y, rows, base)),
        StoneModel::fresh(x, y, rows, base).resting(),
        StoneModel::fresh(x, y, rows, base).cycles == 0,
        StoneModel::fresh(x, y, rows, base).color == Tone::black(),
        at_home(StoneModel::fresh(x, y, rows, base).tick(p, d)),
        StoneModel::fresh(x, y, rows, base).tick(p, d).color == Tone::black(),
{
}

/// A tick either decides or moves, never both. With the countdown run out it
/// leaves the offsets and the rotation alone and restarts the countdown at
/// the cycle count of the draw, which is at least `MIN_CYCLES` and less than
/// `MAX_CYCLES`. With the countdown running it adds the velocity, leaves the
/// velocity alone and takes one from the countdown.
pub proof fn law_tick_decides_or_moves(s: StoneModel, p: Parameters, d: Draw)
    requires
        d.valid(),
    ensures
        s.cycles == 0 ==> {
            &&& s.tick(p, d).offset_x == s.offset_x
            &&& s.tick(p, d).offset_y == s.offset_y
            &&& s.tick(p, d).rotation == s.rotation
            &&& s.tick(p, d).cycles == d.cycles
            &&& MIN_CYCLES <= s.tick(p, d).cycles < MAX_CYCLES
        },
        s.cycles > 0 ==> {
            &&& s.tick(p, d).offset_x == s.offset_x + s.velocity_x
            &&& s.tick(p, d).offset_y == s.offset_y + s.velocity_y
            &&& s.tick(p, d).rotation == s.rotation + s.spin
            &&& s.tick(p, d).velocity_x == s.velocity_x
            &&& s.tick(p, d).velocity_y == s.velocity_y
            &&& s.tick(p, d).spin == s.spin
            &&& s.tick(p, d).cycles == s.cycles - 1
        },
{
}

/// The product of two fixed-point numbers does not depend on their order.
pub proof fn lemma_product_commutes(a: int, b: int)
    ensures
        product(a, b) == product(b, a),
{
    assert(a * b == b * a) by (nonlinear_arith);
}

/// Of two stones of one grid, the one in the lower row has the depth factor
/// that is no smaller; for the same draw and the same parameters it sets off
/// for targets that are no nearer; and with the same base colour it is
/// shaded no darker in any channel.
pub proof fn law_depth_grows_with_row(
    upper: StoneModel,
    lower: StoneModel,
    p: Parameters,
    d: Draw,
)
    requires
        upper.rows == lower.rows,
        upper.y <= lower.y < lower.rows,
        upper.base == lower.base,
        upper.base.valid(),
        p.valid(),
    ensures
        0 <= upper.depth() <= lower.depth() < UNIT,
        magnitude(upper.target_x(p, d)) <= magnitude(lower.target_x(p, d)),
        magnitude(upper.target_y(p, d)) <= magnitude(lower.target_y(p, d)),
        magnitude(upper.target_turn(p, d)) <= magnitude(lower.target_turn(p, d)),
        upper.base.shaded(upper.depth()).red <= lower.base.shaded(lower.depth()).red,
        upper.base.shaded(upper.depth()).green <= lower.base.shaded(lower.depth()).green,
        upper.base.shaded(upper.depth()).blue <= lower.base.shaded(lower.depth()).blue,
{
    let rows = lower.rows as int;
    let near = upper.depth();
    let far = lower.depth();
    lemma_fraction_range(upper.y as int, rows);
    lemma_fraction_range(lower.y as int, rows);
    lemma_fraction_monotone(upper.y as int, lower.y as int, rows);
    let slide = p.displacement_scale as int;
    let twist = p.rotation_scale as int;
    lemma_product_commutes(near, slide);
    lemma_product_commutes(far, slide);
    lemma_product_grows(slide, near, far);
    lemma_product_grows(d.x as int, product(near, slide), product(far, slide));
    lemma_product_grows(d.y as int, product(near, slide), product(far, slide));
    lemma_product_commutes(near, twist);
    lemma_product_commutes(far, twist);
    lemma_product_grows(twist, near, far);
    lemma_product_grows(d.turn as int, product(near, twist), product(far, twist));
    let base = upper.base;
    lemma_product_grows(base.red, near, far);
    lemma_product_grows(base.green, near, far);
    lemma_product_grows(base.blue, near, far);
    lemma_product_magnitude(base.red, near);
    lemma_product_magnitude(base.red, far);
    lemma_product_magnitude(base.green, near);
    lemma_product_magnitude(base.green, far);
    lemma_product_magnitude(base.blue, near);
    lemma_product_magnitude(base.blue, far);
}

/// With a motion probability of zero, a stone whose countdown has run out
/// goes to rest, unless the chance drawn is exactly zero.
pub proof fn law_without_motion_stone_settles(s: StoneModel, p: Parameters, d: Draw)
    requires
        p.motion == 0,
        d.chance > 0,
        s.cycles == 0,
    ensures
        s.tick(p, d).resting(),
        s.tick(p, d) == s.settle(d.cycles as nat).tinted(),
{
}

/// While its countdown runs, a stone only counts down: after as many ticks
/// as `draws` holds, of no more than the countdown allows, that many cycles
/// are gone.
pub proof fn lemma_run_counts_down(s: StoneModel, p: Parameters, draws: Seq<Draw>)
    requires
        draws.len() <= s.cycles,
    ensures
        run(s, p, draws).cycles == s.cycles - draws.len(),
    decreases draws.len(),
{
    if draws.len() > 0 {
        lemma_run_counts_down(s, p, draws.drop_last());
    }
}

/// With a motion probability of zero, any stone is at rest once its
/// countdown has run out and it has decided, that is after one tick more
/// than its countdown holds, unless the chance drawn then is exactly zero.
pub proof fn law_without_motion_stone_comes_to_rest(
    s: StoneModel,
    p: Parameters,
    draws: Seq<Draw>,
)
    requires
        p.motion == 0,
        draws.len() == s.cycles + 1,
        draws.last().chance > 0,
    ensures
        run(s, p, draws).resting(),
{
    lemma_run_counts_down(s, p, draws.drop_last());
}

/// With a motion probability of zero, a stone at rest stays at rest where it
/// is, whatever is drawn but a chance of exactly zero; and from its first
/// tick on its colour stays what its place makes it.
pub proof fn law_without_motion_rest_is_forever(s: StoneModel, p: Parameters, draws: Seq<Draw>)
    requires
        p.motion == 0,
        s.resting(),
        no_zero_chance(draws),
    ensures
        run(s, p, draws).resting(),
        run(s, p, draws).offset_x == s.offset_x,
        run(s, p, draws).offset_y == s.offset_y,
        run(s, p, draws).rotation == s.rotation,
        draws.len() > 0 ==> run(s, p, draws).color == s.tinted().color,
    decreases draws.len(),
{
    if draws.len() > 0 {
        law_without_motion_rest_is_forever(s, p, draws.drop_last());
        let before = run(s, p, draws.drop_last());
        assert(draws.last().chance > 0);
        assert(run(s, p, draws.drop_last()).x == s.x && run(s, p, draws.drop_last()).y == s.y
            && run(s, p, draws.drop_last()).rows == s.rows && run(s, p, draws.drop_last()).base
            == s.base) by {
            lemma_run_keeps_cell(s, p, draws.drop_last());
        }
        assert(before.tick(p, draws.last()).displaced() == s.displaced());
    }
}

/// Any number of ticks leaves a stone its cell, its grid and its base colour.
pub proof fn lemma_run_keeps_cell(s: StoneModel, p: Parameters, draws: Seq<Draw>)
    ensures
        run(s, p, draws).x == s.x,
        run(s, p, draws).y == s.y,
        run(s, p, draws).rows == s.rows,
        run(s, p, draws).base == s.base,
    decreases draws.len(),
{
    if draws.len() > 0 {
        lemma_run_keeps_cell(s, p, draws.drop_last());
    }
}

/// With a motion probability of one, a stone whose countdown has run out
/// always sets off for a new target: it never goes to rest.
pub proof fn law_full_motion_always_departs(s: StoneModel, p: Parameters, d: Draw)
    requires
        p.motion == UNIT,
        d.valid(),
        s.cycles == 0,
    ensures
        s.moved(p, d) == s.depart(p, d),
        s.tick(p, d) == s.depart(p, d).tinted(),
        s.tick(p, d).velocity_x == toward_zero(
            s.target_x(p, d) - s.offset_x,
            d.cycles as int,
        ),
        s.tick(p, d).velocity_y == toward_zero(
            s.target_y(p, d) - s.offset_y,
            d.cycles as int,
        ),
        s.tick(p, d).spin == toward_zero(s.target_turn(p, d) - s.rotation, d.cycles as int),
{
}

/// A stone of the top row, and any stone while both scales are zero, sets
/// off for its own cell, upright: all three targets are zero.
pub proof fn lemma_targets_vanish(s: StoneModel, p: Parameters, d: Draw)
    requires
        0 < s.rows,
        (p.displacement_scale == 0 && p.rotation_scale == 0) || s.y == 0,
    ensures
        s.target_x(p, d) == 0,
        s.target_y(p, d) == 0,
        s.target_turn(p, d) == 0,
{
    if s.y == 0 {
        assert(s.depth() == 0) by (nonlinear_arith)
            requires
                s.depth() == (0 * UNIT) / (s.rows as int),
                0 < s.rows,
        ;
    }
    lemma_product_magnitude(s.depth(), p.displacement_scale as int);
    lemma_product_magnitude(s.depth(), p.rotation_scale as int);
    lemma_product_magnitude(d.x as int, product(s.depth(), p.displacement_scale as int));
    lemma_product_magnitude(d.y as int, product(s.depth(), p.displacement_scale as int));
    lemma_product_magnitude(d.turn as int, product(s.depth(), p.rotation_scale as int));
}

/// While both scales are zero, and in the top row whatever the scales, a
/// stone that rests in its cell stays there for good, upright and black,
/// whatever the motion probability and whatever is drawn.
pub proof fn law_without_scale_stone_stays_home(s: StoneModel, p: Parameters, draws: Seq<Draw>)
    requires
        0 < s.rows,
        (p.displacement_scale == 0 && p.rotation_scale == 0) || s.y == 0,
        at_home(s),
        s.resting(),
        all_valid(draws),
    ensures
        at_home(run(s, p, draws)),
        run(s, p, draws).resting(),
        draws.len() > 0 ==> run(s, p, draws).color == Tone::black(),
    decreases draws.len(),
{
    if draws.len() > 0 {
        law_without_scale_stone_stays_home(s, p, draws.drop_last());
        lemma_run_keeps_cell(s, p, draws.drop_last());
        let before = run(s, p, draws.drop_last());
        let d = draws.last();
        assert(d.valid());
        lemma_targets_vanish(before, p, d);
        assert(toward_zero(0, d.cycles as int) == 0) by (nonlinear_arith)
            requires
                0 < d.cycles,
        ;
    }
}

/// The stone after `steps` steps at its velocity.
pub open spec fn glided(s: StoneModel, steps: nat) -> StoneModel
    decreases steps,
{
    if steps == 0 {
        s
    } else {
        glided(s, (steps - 1) as nat).glide()
    }
}

/// `steps` steps, of no more than the countdown allows, add `steps` times
/// the velocity and take `steps` from the countdown.
pub proof fn lemma_glided(s: StoneModel, steps: nat)
    requires
        steps <= s.cycles,
    ensures
        glided(s, steps).offset_x == s.offset_x + steps * s.velocity_x,
        glided(s, steps).offset_y == s.offset_y + steps * s.velocity_y,
        glided(s, steps).rotation == s.rotation + steps * s.spin,
        glided(s, steps).velocity_x == s.velocity_x,
        glided(s, steps).velocity_y == s.velocity_y,
        glided(s, steps).spin == s.spin,
        glided(s, steps).cycles == s.cycles - steps,
    decreases steps,
{
    if steps > 0 {
        let k = (steps - 1) as nat;
        lemma_glided(s, k);
        assert(k * s.velocity_x + s.velocity_x == steps * s.velocity_x) by (nonlinear_arith)
            requires
                k + 1 == steps,
        ;
        assert(k * s.velocity_y + s.velocity_y == steps * s.velocity_y) by (nonlinear_arith)
            requires
                k + 1 == steps,
        ;
        assert(k * s.spin + s.spin == steps * s.spin) by (nonlinear_arith)
            requires
                k + 1 == steps,
        ;
    } else {
        assert(0 * s.velocity_x == 0 && 0 * s.velocity_y == 0 && 0 * s.spin == 0)
            by (nonlinear_arith);
    }
}

/// A stone that sets off covers the way in exactly as many steps as the draw
/// counts cycles: when its countdown has run out again it lies less than
/// that many billionths short of each target, and never beyond it.
pub proof fn law_stone_lands_at_target(s: StoneModel, p: Parameters, d: Draw)
    requires
        d.valid(),
    ensures
        glided(s.depart(p, d), d.cycles as nat).cycles == 0,
        magnitude(s.target_x(p, d) - glided(s.depart(p, d), d.cycles as nat).offset_x)
            < d.cycles,
        magnitude(s.target_y(p, d) - glided(s.depart(p, d), d.cycles as nat).offset_y)
            < d.cycles,
        magnitude(s.target_turn(p, d) - glided(s.depart(p, d), d.cycles as nat).rotation)
            < d.cycles,
{
    let n = d.cycles as nat;
    lemma_glided(s.depart(p, d), n);
    lemma_steps_stay_within(s.target_x(p, d) - s.offset_x, n as int);
    lemma_steps_stay_within(s.target_y(p, d) - s.offset_y, n as int);
    lemma_steps_stay_within(s.target_turn(p, d) - s.rotation, n as int);
}

/// Taking valid parameters apart into their three integers and building
/// parameters from those gives the same parameters back.
pub proof fn law_parameters_round_trip(p: Parameters)
    requires
        p.valid(),
    ensures
        Parameters::clamped_from(
            p.motion as int,
            p.displacement_scale as int,
            p.rotation_scale as int,
        ) == p,
{
}

} // verus!
