//! Colours with fixed-point channels.

use vstd::prelude::*;
use crate::dice::between;
use crate::fixed::{lemma_product_bound, lemma_product_magnitude, product, times, UNIT};

verus! {

/// The darkest channel value that a stone's base colour is drawn with: a
/// quarter of full intensity.
pub const DIMMEST: i64 = 250_000_000;

/// A colour as three channel intensities, each counted in billionths of full
/// intensity.
#[derive(Clone, Copy, Debug, PartialEq, Eq, Structural)]
pub struct Rgb {
    pub red: i64,
    pub green: i64,
    pub blue: i64,
}

/// The mathematical value of an [`Rgb`].
pub struct Tone {
    pub red: int,
    pub green: int,
    pub blue: int,
}

impl Tone {
    /// Every channel lies between no intensity and full intensity.
    pub open spec fn valid(self) -> bool {
        &&& 0 <= self.red <= UNIT
        &&& 0 <= self.green <= UNIT
        &&& 0 <= self.blue <= UNIT
    }

    /// The colour with no intensity in any channel.
    pub open spec fn black() -> Tone {
        Tone { red: 0, green: 0, blue: 0 }
    }

    /// This colour with every channel multiplied by the fraction `depth`.
    pub open spec fn shaded(self, depth: int) -> Tone {
        Tone {
            red: product(self.red, depth),
            green: product(self.green, depth),
            blue: product(self.blue, depth),
        }
    }

    /// Every channel is at least `DIMMEST` and below full intensity.
    pub open spec fn bright(self) -> bool {
        &&& DIMMEST <= self.red < UNIT
        &&& DIMMEST <= self.green < UNIT
        &&& DIMMEST <= self.blue < UNIT
    }
}

/// Shading a valid colour by a fraction between zero and one gives a valid
/// colour.
pub proof fn lemma_shaded_is_valid(tone: Tone, depth: int)
    requires
        tone.valid(),
        0 <= depth <= UNIT,
    ensures
        tone.shaded(depth).valid(),
{
    lemma_product_magnitude(tone.red, depth);
    lemma_product_magnitude(tone.green, depth);
    lemma_product_magnitude(tone.blue, depth);
    lemma_product_bound(tone.red, depth, UNIT as int, UNIT as int);
    lemma_product_bound(tone.green, depth, UNIT as int, UNIT as int);
    lemma_product_bound(tone.blue, depth, UNIT as int, UNIT as int);
}

impl View for Rgb {
    type V = Tone;

    open spec fn view(&self) -> Tone {
        Tone { red: self.red as int, green: self.green as int, blue: self.blue as int }
    }
}

impl Rgb {
    /// Builds a colour from its three channels.
    pub fn new(red: i64, green: i64, blue: i64) -> (rgb: Rgb)
        ensures
            rgb@ == (Tone { red: red as int, green: green as int, blue: blue as int }),
    {
        Rgb { red, green, blue }
    }

    /// The colour with no intensity in any channel.
    pub fn black() -> (rgb: Rgb)
        ensures
            rgb@ == Tone::black(),
    {
        Rgb { red: 0, green: 0, blue: 0 }
    }

    /// Tells whether every channel lies between no intensity and full
    /// intensity.
    pub fn is_valid(&self) -> (ok: bool)
        ensures
            ok == self@.valid(),
    {
        0 <= self.red && self.red <= UNIT && 0 <= self.green && self.green <= UNIT && 0
            <= self.blue && self.blue <= UNIT
    }

    /// This colour with every channel multiplied by the fraction `depth`.
    pub fn shaded(&self, depth: i64) -> (rgb: Rgb)
        requires
            self@.valid(),
            0 <= depth <= UNIT,
        ensures
            rgb@ == self@.shaded(depth as int),
            rgb@.valid(),
    {
        proof {
            lemma_shaded_is_valid(self@, depth as int);
        }
        Rgb {
            red: times(self.red, depth),
            green: times(self.green, depth),
            blue: times(self.blue, depth),
        }
    }

    /// Draws a colour whose channels are each uniform between a quarter of
    /// full intensity and full intensity, the latter excluded.
    pub fn sample() -> (rgb: Rgb)
        ensures
            rgb@.bright(),
            rgb@.valid(),
    {
        let red = between(DIMMEST, UNIT);
        let green = between(DIMMEST, UNIT);
        let blue = between(DIMMEST, UNIT);
        Rgb { red, green, blue }
    }
}

} // verus!
