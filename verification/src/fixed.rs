//! Integer arithmetic on fixed-point values: division that rounds toward
//! zero, and holding a wide value to 32 bits.

use vstd::prelude::*;

verus! {

/// The quotient of `a` by a positive `b`, rounded toward zero.
pub open spec fn trunc_div(a: int, b: int) -> int {
    if a >= 0 {
        a / b
    } else {
        -((-a) / b)
    }
}

/// The nearest value that a 32-bit signed integer can hold.
pub open spec fn saturate(x: int) -> int {
    if x < i32::MIN {
        i32::MIN as int
    } else if x > i32::MAX {
        i32::MAX as int
    } else {
        x
    }
}

/// Quotient rounded toward zero, for a positive divisor.
pub fn div_toward_zero(a: i64, b: i64) -> (q: i64)
    requires
        b > 0,
        a > i64::MIN,
    ensures
        q == trunc_div(a as int, b as int),
{
    if a >= 0 {
        a / b
    } else {
        -((-a) / b)
    }
}

/// Holds a wide value to 32 bits.
pub fn saturate_to_i32(x: i64) -> (r: i32)
    ensures
        r == saturate(x as int),
{
    if x < -2_147_483_648 {
        -2_147_483_648
    } else if x > 2_147_483_647 {
        2_147_483_647
    } else {
        x as i32
    }
}

} // verus!
