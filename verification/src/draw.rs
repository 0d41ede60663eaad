//! What one stone takes from chance when its countdown has run out.

use vstd::prelude::*;
use crate::dice::between;
use crate::fixed::UNIT;

verus! {

/// The fewest ticks that a stone rests or travels for.
pub const MIN_CYCLES: u32 = 50;

/// One more than the most ticks that a stone rests or travels for.
pub const MAX_CYCLES: u32 = 100;

/// One half, in billionths: the bound of a displacement sample.
pub const HALF: i64 = 500_000_000;

/// A quarter of pi, in billionths of a radian, rounded down: the bound of a
/// rotation sample.
pub const QUARTER_TURN: i64 = 785_398_163;

/// The random values that decide one stone's next stretch of ticks.
///
/// `chance` is the uniform value in `[0, 1)` that is held against the motion
/// probability, `cycles` the length of the next stretch, `x` and `y` the
/// displacement samples in `[-1/2, 1/2)` and `turn` the rotation sample in
/// `[-pi/4, pi/4)`, the fractional ones in billionths.
#[derive(Clone, Copy, Debug, PartialEq, Eq, Structural)]
pub struct Draw {
    pub chance: i64,
    pub cycles: u32,
    pub x: i64,
    pub y: i64,
    pub turn: i64,
}

impl Draw {
    /// Every value lies in the range that it is sampled from.
    pub open spec fn valid(self) -> bool {
        &&& 0 <= self.chance < UNIT
        &&& MIN_CYCLES <= self.cycles < MAX_CYCLES
        &&& -HALF <= self.x < HALF
        &&& -HALF <= self.y < HALF
        &&& -QUARTER_TURN <= self.turn < QUARTER_TURN
    }

    /// Tells whether every value lies in the range that it is sampled from.
    pub fn is_valid(&self) -> (ok: bool)
        ensures
            ok == self.valid(),
    {
        0 <= self.chance && self.chance < UNIT && MIN_CYCLES <= self.cycles && self.cycles
            < MAX_CYCLES && -HALF <= self.x && self.x < HALF && -HALF <= self.y && self.y < HALF
            && -QUARTER_TURN <= self.turn && self.turn < QUARTER_TURN
    }

    /// Samples a draw for a stone that decides against the motion
    /// probability `motion`.
    ///
    /// The chance and the cycle count are always sampled. The three target
    /// samples are sampled only when the chance does not exceed `motion`,
    /// that is when the stone will set off; otherwise they are zero.
    pub fn sample(motion: i64) -> (d: Draw)
        ensures
            d.valid(),
            d.chance > motion ==> d.x == 0 && d.y == 0 && d.turn == 0,
    {
        let chance = between(0, UNIT);
        let count = between(50, 100);
        let cycles = count as u32;
        if chance > motion {
            Draw { chance, cycles, x: 0, y: 0, turn: 0 }
        } else {
            let x = between(-HALF, HALF);
            let y = between(-HALF, HALF);
            let turn = between(-QUARTER_TURN, QUARTER_TURN);
            Draw { chance, cycles, x, y, turn }
        }
    }
}

} // verus!
