//! The three quantities that the control panel tunes.

use vstd::prelude::*;
use crate::fixed::UNIT;

verus! {

/// The largest value of either scale: five, in billionths.
pub const MAX_SCALE: i64 = 5_000_000_000;

/// `v` moved into the range from `low` to `high`.
pub open spec fn clamp(v: int, low: int, high: int) -> int {
    if v < low {
        low
    } else if v > high {
        high
    } else {
        v
    }
}

/// The tunable parameters of the animation, in billionths.
///
/// `motion` is the probability, between zero and one, that a stone whose
/// countdown has run out sets off again instead of resting. The two scales,
/// between zero and five, stretch the displacement and the rotation that a
/// stone sets off for.
#[derive(Clone, Copy, Debug, PartialEq, Eq, Structural)]
pub struct Parameters {
    pub motion: i64,
    pub displacement_scale: i64,
    pub rotation_scale: i64,
}

impl Parameters {
    /// Every parameter lies in its range.
    pub open spec fn valid(self) -> bool {
        &&& 0 <= self.motion <= UNIT
        &&& 0 <= self.displacement_scale <= MAX_SCALE
        &&& 0 <= self.rotation_scale <= MAX_SCALE
    }

    /// What [`Parameters::clamped`] builds from three integers.
    pub open spec fn clamped_from(motion: int, displacement_scale: int, rotation_scale: int)
        -> Parameters {
        Parameters {
            motion: clamp(motion, 0, UNIT as int) as i64,
            displacement_scale: clamp(displacement_scale, 0, MAX_SCALE as int) as i64,
            rotation_scale: clamp(rotation_scale, 0, MAX_SCALE as int) as i64,
        }
    }

    /// The parameters that the animation starts with: no motion, both scales
    /// at one.
    pub fn new() -> (p: Parameters)
        ensures
            p == (Parameters { motion: 0, displacement_scale: UNIT, rotation_scale: UNIT }),
            p.valid(),
    {
        Parameters { motion: 0, displacement_scale: UNIT, rotation_scale: UNIT }
    }

    /// Builds parameters from three integers, moving each into its range.
    pub fn clamped(motion: i64, displacement_scale: i64, rotation_scale: i64) -> (p: Parameters)
        ensures
            p == Parameters::clamped_from(
                motion as int,
                displacement_scale as int,
                rotation_scale as int,
            ),
            p.valid(),
    {
        Parameters {
            motion: clamp_to(motion, 0, UNIT),
            displacement_scale: clamp_to(displacement_scale, 0, MAX_SCALE),
            rotation_scale: clamp_to(rotation_scale, 0, MAX_SCALE),
        }
    }

    /// Tells whether every parameter lies in its range.
    pub fn is_valid(&self) -> (ok: bool)
        ensures
            ok == self.valid(),
    {
        0 <= self.motion && self.motion <= UNIT && 0 <= self.displacement_scale
            && self.displacement_scale <= MAX_SCALE && 0 <= self.rotation_scale
            && self.rotation_scale <= MAX_SCALE
    }

    /// Sets the motion probability to `v` moved into the range from zero to
    /// one.
    pub fn set_motion(&mut self, v: i64)
        ensures
            final(self).motion == clamp(v as int, 0, UNIT as int),
            final(self).displacement_scale == old(self).displacement_scale,
            final(self).rotation_scale == old(self).rotation_scale,
    {
        self.motion = clamp_to(v, 0, UNIT);
    }

    /// Sets the displacement scale to `v` moved into the range from zero to
    /// five.
    pub fn set_displacement_scale(&mut self, v: i64)
        ensures
            final(self).displacement_scale == clamp(v as int, 0, MAX_SCALE as int),
            final(self).motion == old(self).motion,
            final(self).rotation_scale == old(self).rotation_scale,
    {
        self.displacement_scale = clamp_to(v, 0, MAX_SCALE);
    }

    /// Sets the rotation scale to `v` moved into the range from zero to five.
    pub fn set_rotation_scale(&mut self, v: i64)
        ensures
            final(self).rotation_scale == clamp(v as int, 0, MAX_SCALE as int),
            final(self).motion == old(self).motion,
            final(self).displacement_scale == old(self).displacement_scale,
    {
        self.rotation_scale = clamp_to(v, 0, MAX_SCALE);
    }
}

/// Moves `v` into the range from `low` to `high`.
pub fn clamp_to(v: i64, low: i64, high: i64) -> (r: i64)
    ensures
        r == clamp(v as int, low as int, high as int),
{
    if v < low {
        low
    } else if v > high {
        high
    } else {
        v
    }
}

} // verus!
