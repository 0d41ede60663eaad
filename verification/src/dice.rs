//! The one place where chance enters the library.

use vstd::prelude::*;

verus! {

/// Draws an integer from the thread-local generator by calling
/// `nannou::rand::random_range(low, high)`.
///
/// Not proved, taken from that function's source: with `low < high` it
/// samples the half-open range `low..high`, so the value returned is at
/// least `low` and less than `high`. The empty range is left out because the
/// generator panics on it. Nothing else is claimed of the value: two calls
/// with the same bounds may differ.
#[verifier::external_body]
pub(crate) fn between(low: i64, high: i64) -> (n: i64)
    requires
        low < high,
    ensures
        low <= n < high,
{
    nannou::rand::random_range(low, high)
}

} // verus!
