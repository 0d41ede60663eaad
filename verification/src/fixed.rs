//! Fixed-point arithmetic in billionths.
//!
//! Every fractional quantity of this crate (an offset in cells, an angle in
//! radians, a probability, a colour channel) is an `i64` that counts
//! billionths of one whole. Products and quotients round toward zero, so that
//! a quantity and its negation always have the same magnitude.

use vstd::prelude::*;

verus! {

/// One whole, counted in billionths.
pub const UNIT: i64 = 1_000_000_000;

/// The absolute value of `a`.
pub open spec fn magnitude(a: int) -> int {
    if a < 0 {
        -a
    } else {
        a
    }
}

/// The quotient of `a` by a positive `d`, rounded toward zero.
pub open spec fn toward_zero(a: int, d: int) -> int {
    if a >= 0 {
        a / d
    } else {
        -((-a) / d)
    }
}

/// The product of two fixed-point numbers, rounded toward zero.
pub open spec fn product(a: int, b: int) -> int {
    toward_zero(a * b, UNIT as int)
}

/// The fixed-point value of `n / d`, rounded down.
pub open spec fn fraction(n: int, d: int) -> int {
    (n * UNIT) / d
}

/// The magnitude of a product is the rounded-down product of the magnitudes.
pub proof fn lemma_product_magnitude(a: int, b: int)
    ensures
        magnitude(product(a, b)) == (magnitude(a) * magnitude(b)) / (UNIT as int),
        a == 0 || b == 0 ==> product(a, b) == 0,
        (a >= 0 && b >= 0) || (a <= 0 && b <= 0) ==> product(a, b) >= 0,
        (a >= 0 && b <= 0) || (a <= 0 && b >= 0) ==> product(a, b) <= 0,
{
    let m = magnitude(a) * magnitude(b);
    assert(m >= 0) by (nonlinear_arith)
        requires
            m == magnitude(a) * magnitude(b),
            magnitude(a) >= 0,
            magnitude(b) >= 0,
    ;
    assert(a * b == m || a * b == -m) by (nonlinear_arith)
        requires
            m == magnitude(a) * magnitude(b),
            magnitude(a) == a || magnitude(a) == -a,
            magnitude(b) == b || magnitude(b) == -b,
    ;
    assert((a >= 0 && b >= 0) || (a <= 0 && b <= 0) ==> a * b >= 0) by (nonlinear_arith);
    assert((a >= 0 && b <= 0) || (a <= 0 && b >= 0) ==> a * b <= 0) by (nonlinear_arith);
    assert(a == 0 || b == 0 ==> a * b == 0) by (nonlinear_arith);
    assert(m / (UNIT as int) >= 0);
    assert(0int / (UNIT as int) == 0);
}

/// A product is no larger than the rounded-down product of any bounds on its
/// factors.
pub proof fn lemma_product_bound(a: int, b: int, bound_a: int, bound_b: int)
    requires
        magnitude(a) <= bound_a,
        magnitude(b) <= bound_b,
    ensures
        magnitude(product(a, b)) <= (bound_a * bound_b) / (UNIT as int),
{
    lemma_product_magnitude(a, b);
    assert(magnitude(a) * magnitude(b) <= bound_a * bound_b) by (nonlinear_arith)
        requires
            0 <= magnitude(a) <= bound_a,
            0 <= magnitude(b) <= bound_b,
    ;
    vstd::arithmetic::div_mod::lemma_div_is_ordered(
        magnitude(a) * magnitude(b),
        bound_a * bound_b,
        UNIT as int,
    );
}

/// A product grows, in magnitude, with the magnitude of its second factor.
pub proof fn lemma_product_grows(a: int, small: int, large: int)
    requires
        magnitude(small) <= magnitude(large),
    ensures
        magnitude(product(a, small)) <= magnitude(product(a, large)),
{
    lemma_product_magnitude(a, small);
    lemma_product_magnitude(a, large);
    assert(magnitude(a) * magnitude(small) <= magnitude(a) * magnitude(large))
        by (nonlinear_arith)
        requires
            0 <= magnitude(a),
            0 <= magnitude(small) <= magnitude(large),
    ;
    vstd::arithmetic::div_mod::lemma_div_is_ordered(
        magnitude(a) * magnitude(small),
        magnitude(a) * magnitude(large),
        UNIT as int,
    );
}

/// `fraction(n, d)` lies in `[0, UNIT)` when `0 <= n < d`, and grows with `n`.
pub proof fn lemma_fraction_range(n: int, d: int)
    requires
        0 <= n < d,
    ensures
        0 <= fraction(n, d) < UNIT,
{
    assert(0 <= (n * UNIT) / d < UNIT) by (nonlinear_arith)
        requires
            0 <= n < d,
            UNIT == 1_000_000_000,
    ;
}

/// `fraction(n, d)` does not decrease when `n` grows.
pub proof fn lemma_fraction_monotone(small: int, large: int, d: int)
    requires
        small <= large,
        0 < d,
    ensures
        fraction(small, d) <= fraction(large, d),
{
    vstd::arithmetic::div_mod::lemma_div_is_ordered(small * UNIT, large * UNIT, d);
}

/// Taking `n` steps of `toward_zero(gap, n)` moves toward the far end of
/// `gap` without passing it, and stops less than `n` short of it.
pub proof fn lemma_steps_stay_within(gap: int, n: int)
    requires
        0 < n,
    ensures
        gap >= 0 ==> 0 <= n * toward_zero(gap, n) <= gap,
        gap <= 0 ==> gap <= n * toward_zero(gap, n) <= 0,
        magnitude(gap - n * toward_zero(gap, n)) < n,
{
    if gap >= 0 {
        assert(0 <= n * (gap / n) <= gap && gap - n * (gap / n) < n) by (nonlinear_arith)
            requires
                0 < n,
                0 <= gap,
        ;
    } else {
        let back = -gap;
        assert(0 <= n * (back / n) <= back && back - n * (back / n) < n) by (nonlinear_arith)
            requires
                0 < n,
                0 <= back,
        ;
        assert(n * (-(back / n)) == -(n * (back / n))) by (nonlinear_arith);
    }
}

/// Multiplies two fixed-point numbers, rounding toward zero.
pub fn times(a: i64, b: i64) -> (p: i64)
    requires
        i64::MIN <= product(a as int, b as int) <= i64::MAX,
    ensures
        p == product(a as int, b as int),
{
    assert(-0x4000_0000_0000_0000_0000_0000_0000_0000 <= a * b
        <= 0x4000_0000_0000_0000_0000_0000_0000_0000) by (nonlinear_arith)
        requires
            -0x8000_0000_0000_0000 <= a <= 0x8000_0000_0000_0000,
            -0x8000_0000_0000_0000 <= b <= 0x8000_0000_0000_0000,
    ;
    let wide: i128 = (a as i128) * (b as i128);
    let whole: i128 = 1_000_000_000;
    let scaled: i128 = wide / whole;
    scaled as i64
}

/// The fixed-point value of `n / d`, rounded down.
pub fn ratio(n: u32, d: u32) -> (f: i64)
    requires
        d > 0,
    ensures
        f == fraction(n as int, d as int),
{
    let scaled: i64 = (n as i64) * 1_000_000_000;
    scaled / (d as i64)
}

} // verus!
