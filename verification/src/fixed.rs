//! Small fixed-point arithmetic helpers: truncating division and clamping,
//! with exact specifications.

use vstd::prelude::*;

verus! {

/// Division rounded toward zero, as a mathematical function. For a
/// non-negative dividend this agrees with Euclidean division.
pub open spec fn tdiv_spec(x: int, d: int) -> int {
    if x >= 0 {
        x / d
    } else {
        -((-x) / d)
    }
}

/// Saturation of `x` into `[-lim, lim]`.
pub open spec fn clamp_spec(x: int, lim: int) -> int {
    if x > lim {
        lim
    } else if x < -lim {
        -lim
    } else {
        x
    }
}

/// Division of a 128-bit value by a positive divisor, rounded toward zero.
pub fn tdiv(x: i128, d: i128) -> (r: i128)
    requires
        d > 0,
        -0x4000_0000_0000_0000_0000_0000_0000_0000 <= x,
        x <= 0x4000_0000_0000_0000_0000_0000_0000_0000,
    ensures
        r == tdiv_spec(x as int, d as int),
        0 <= r <= x || x <= r <= 0,
{
    proof {
        lemma_div_shrinks(x as int, d as int);
    }
    if x >= 0 {
        x / d
    } else {
        -((-x) / d)
    }
}

/// Truncating division never grows a value's magnitude.
pub proof fn lemma_div_shrinks(x: int, d: int)
    requires
        d > 0,
    ensures
        x >= 0 ==> 0 <= tdiv_spec(x, d) <= x,
        x < 0 ==> x <= tdiv_spec(x, d) <= 0,
{
    if x >= 0 {
        vstd::arithmetic::div_mod::lemma_div_nonincreasing(x, d);
        vstd::arithmetic::div_mod::lemma_div_pos_is_pos(x, d);
    } else {
        vstd::arithmetic::div_mod::lemma_div_nonincreasing(-x, d);
        vstd::arithmetic::div_mod::lemma_div_pos_is_pos(-x, d);
    }
}

/// Saturate a wide intermediate value into `[-lim, lim]`, narrowing to 64 bits.
pub fn clamp_to(x: i128, lim: i64) -> (r: i64)
    requires
        0 < lim,
    ensures
        r == clamp_spec(x as int, lim as int),
        -lim <= r <= lim,
{
    if x > lim as i128 {
        lim
    } else if x < -(lim as i128) {
        -lim
    } else {
        x as i64
    }
}

} // verus!
