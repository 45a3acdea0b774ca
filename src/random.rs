//! The one source of chance in the simulation.
use vstd::prelude::*;

verus! {

/// Relies on `macroquad::rand::gen_range` (quad-rand's global generator) for
/// an `i64`: it scales a uniform draw from `[0, 1)` onto `[low, high)` and
/// truncates toward zero, which lands in `[low, high]` whenever both bounds
/// are exact in an `f64`.
#[verifier::external_body]
pub(crate) fn uniform_between(low: i64, high: i64) -> (r: i64)
    requires
        -0x1_0000_0000 <= low <= high <= 0x1_0000_0000,
    ensures
        low <= r <= high,
{
    macroquad::rand::gen_range::<i64>(low, high)
}

} // verus!
