//! Angles in millionths of a radian, with shortest-path wrapping.

use vstd::prelude::*;

verus! {

/// One half turn, in millionths of a radian (pi rounded to micro-radians).
pub const PI_URAD: i64 = 3_141_593;

/// One full turn, in millionths of a radian.
pub const TWO_PI_URAD: i64 = 6_283_186;

/// A quarter turn, in millionths of a radian.
pub const HALF_PI_URAD: i64 = 1_570_796;

/// `a` and `b` name the same direction: they differ by a whole number of turns.
pub open spec fn same_direction(a: int, b: int) -> bool {
    (a - b) % (TWO_PI_URAD as int) == 0
}

/// Wrap an angle onto the shortest-path range `(-pi, pi]`.
pub fn wrap_angle(a: i64) -> (r: i64)
    ensures
        -PI_URAD < r <= PI_URAD,
        same_direction(r as int, a as int),
{
    let mut x = a;
    proof {
        vstd::arithmetic::div_mod::lemma_mod_self_0(TWO_PI_URAD as int);
    }
    while x > PI_URAD
        invariant
            same_direction(x as int, a as int),
        decreases x + TWO_PI_URAD - PI_URAD,
    {
        proof {
            vstd::arithmetic::div_mod::lemma_mod_sub_multiples_vanish(
                x - a as int,
                TWO_PI_URAD as int,
            );
        }
        x = x - TWO_PI_URAD;
    }
    while x <= -PI_URAD
        invariant
            x <= PI_URAD,
            same_direction(x as int, a as int),
        decreases PI_URAD - x,
    {
        proof {
            vstd::arithmetic::div_mod::lemma_mod_add_multiples_vanish(
                x - a as int,
                TWO_PI_URAD as int,
            );
        }
        x = x + TWO_PI_URAD;
    }
    x
}

/// Inside one turn's half-open range there is only one representative of a
/// direction: the range and the congruence in [`wrap_angle`]'s contract pin
/// its result completely.
pub proof fn lemma_wrapped_angle_unique(a: int, r1: int, r2: int)
    requires
        -PI_URAD < r1 <= PI_URAD,
        -PI_URAD < r2 <= PI_URAD,
        same_direction(r1, a),
        same_direction(r2, a),
    ensures
        r1 == r2,
{
    let t = TWO_PI_URAD as int;
    let d = r1 - r2;
    vstd::arithmetic::div_mod::lemma_sub_mod_noop(r1 - a, r2 - a, t);
    assert(d % t == 0);
    if d > 0 {
        vstd::arithmetic::div_mod::lemma_small_mod(d as nat, t as nat);
    } else if d < 0 {
        vstd::arithmetic::div_mod::lemma_mod_add_multiples_vanish(d, t);
        vstd::arithmetic::div_mod::lemma_small_mod((d + t) as nat, t as nat);
    }
}

/// Wrapped angular error from heading `from` to heading `to`: the shortest
/// signed rotation carrying `from` onto `to`.
pub fn angle_diff(from: i64, to: i64) -> (r: i64)
    requires
        -PI_URAD <= from <= PI_URAD,
        -PI_URAD <= to <= PI_URAD,
    ensures
        -PI_URAD < r <= PI_URAD,
        same_direction(r as int, to - from),
{
    wrap_angle(to - from)
}

} // verus!
