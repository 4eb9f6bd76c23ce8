//! Small arithmetic helpers shared by the clock, I2C and DDR timing code.

use vstd::prelude::*;

verus! {

/// Divide rounding up.
pub fn div_ceil(q: u32, d: u32) -> (r: u32)
    requires
        d > 0,
    ensures
        r == spec_div_ceil(q as int, d as int),
{
    let rest: u32 = q % d;
    if rest == 0 {
        q / d
    } else {
        proof {
            assert(q % 1 == 0int);
            assert(d >= 2);
            assert(q / d < u32::MAX) by (nonlinear_arith)
                requires
                    d >= 2,
                    q <= u32::MAX,
            ;
        }
        q / d + 1
    }
}

/// Mathematical ceiling of `q / d`.
pub open spec fn spec_div_ceil(q: int, d: int) -> int {
    if q % d == 0 {
        q / d
    } else {
        q / d + 1
    }
}

/// Quotient rounded to the nearest integer (ties round up).
pub open spec fn spec_div_round_closest(q: int, d: int) -> int {
    (q + d / 2) / d
}

/// Divide rounding to the nearest integer (ties round up).
pub fn div_round_closest(q: u32, d: u32) -> (r: u32)
    requires
        d > 0,
        q + d / 2 <= u32::MAX,
    ensures
        r == spec_div_round_closest(q as int, d as int),
{
    (q + d / 2) / d
}

} // verus!
