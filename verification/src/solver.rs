//! Ballistic intercept solver.
//!
//! A projectile of fixed speed leaves the agent at time zero, flying straight
//! at the point where it will meet a target that moves with constant relative
//! velocity. Writing `|dp + dv*t| = speed*t` and squaring gives a quadratic
//! `a*t^2 + b*t + c = 0` whose smallest positive root is the time of flight.
//!
//! Positions are in thousandths of a unit, velocities in thousandths of a
//! unit per second, and the returned time in milliseconds, so with
//! `t` in milliseconds the squared equation has coefficients
//! `a = |dv|^2 - speed^2`, `b = 2000*(dv . dp)` and `c = 1000000*|dp|^2`.
//!
//! The solver scans forward at millisecond resolution and reports the last
//! whole millisecond before the squared miss distance `quad(a, b, c, t)`
//! turns negative, i.e. the floor of the smallest positive real root. A
//! degenerate leading coefficient (`a == 0`), a root beyond [`HORIZON_MS`],
//! or an intercept window narrower than one millisecond are all reported as
//! `None`: no shot is owed there.

use vstd::prelude::*;

use crate::vec2::Vec2;

verus! {

/// Positions handed to the solver stay within this many thousandths of a
/// unit of the origin.
pub const DP_LIMIT: i64 = 20_000_000;

/// Relative velocities handed to the solver stay within this bound.
pub const DV_LIMIT: i64 = 20_000_000;

/// Projectile speeds handed to the solver stay within this bound.
pub const SPEED_LIMIT: i64 = 10_000_000;

/// Flight times are searched up to this many milliseconds.
pub const HORIZON_MS: i64 = 600_000;

/// The quadratic `a*t^2 + b*t + c`, the squared miss distance (scaled) of a
/// straight shot evaluated at time `t`.
pub open spec fn quad(a: int, b: int, c: int, t: int) -> int {
    a * t * t + b * t + c
}

/// Leading coefficient of the intercept quadratic.
pub open spec fn coeff_a(dv: Vec2, speed: int) -> int {
    dv.x * dv.x + dv.y * dv.y - speed * speed
}

/// Linear coefficient of the intercept quadratic (time in milliseconds).
pub open spec fn coeff_b(dp: Vec2, dv: Vec2) -> int {
    2000 * (dv.x * dp.x + dv.y * dp.y)
}

/// Constant coefficient of the intercept quadratic (time in milliseconds).
pub open spec fn coeff_c(dp: Vec2) -> int {
    1_000_000 * (dp.x * dp.x + dp.y * dp.y)
}

/// Everything [`intercept_time`] promises of its result. `Some(t)` is the
/// floor of the smallest positive real root of the intercept quadratic;
/// `None` means the quadratic is degenerate or never turns negative within
/// the horizon.
pub open spec fn intercept_post(dp: Vec2, dv: Vec2, speed: int, r: Option<i64>) -> bool {
    let a = coeff_a(dv, speed);
    let b = coeff_b(dp, dv);
    let c = coeff_c(dp);
    match r {
        Some(t) => {
            &&& a != 0
            &&& 0 <= t < HORIZON_MS
            &&& forall|u: int| 0 <= u <= t ==> quad(a, b, c, u) >= 0
            &&& quad(a, b, c, t + 1) < 0
        },
        None => a == 0 || forall|u: int| 0 <= u <= HORIZON_MS ==> quad(a, b, c, u) >= 0,
    }
}

/// Evaluate the intercept quadratic at a time within the horizon, exactly.
fn eval_quad(a: i128, b: i128, c: i128, t: i64) -> (r: i128)
    requires
        -0x1_0000_0000_0000_0000_0000 <= a <= 0x1_0000_0000_0000_0000_0000,
        -0x1_0000_0000_0000_0000_0000_0000 <= b <= 0x1_0000_0000_0000_0000_0000_0000,
        -0x1_0000_0000_0000_0000_0000_0000 <= c <= 0x1_0000_0000_0000_0000_0000_0000,
        0 <= t <= HORIZON_MS + 1,
    ensures
        r == quad(a as int, b as int, c as int, t as int),
{
    let tw = t as i128;
    proof {
        lemma_eval_quad_bounds(a as int, b as int, tw as int);
    }
    a * tw * tw + b * tw + c
}

/// The terms of the quadratic stay far inside 128 bits for times within the
/// horizon and coefficients within the solver's bounds.
proof fn lemma_eval_quad_bounds(a: int, b: int, t: int)
    requires
        -0x1_0000_0000_0000_0000_0000 <= a <= 0x1_0000_0000_0000_0000_0000,
        -0x1_0000_0000_0000_0000_0000_0000 <= b <= 0x1_0000_0000_0000_0000_0000_0000,
        0 <= t <= HORIZON_MS + 1,
    ensures
        -0x10_0000_0000_0000_0000_0000_0000 <= a * t <= 0x10_0000_0000_0000_0000_0000_0000,
        -0x100_0000_0000_0000_0000_0000_0000_0000 <= (a * t) * t
            <= 0x100_0000_0000_0000_0000_0000_0000_0000,
        -0x100_0000_0000_0000_0000_0000_0000_0000 <= b * t
            <= 0x100_0000_0000_0000_0000_0000_0000_0000,
{
    assert(-0x10_0000_0000_0000_0000_0000_0000 <= a * t <= 0x10_0000_0000_0000_0000_0000_0000)
        by (nonlinear_arith)
        requires
            -0x1_0000_0000_0000_0000_0000 <= a <= 0x1_0000_0000_0000_0000_0000,
            0 <= t <= 600_001;
    assert(-0x100_0000_0000_0000_0000_0000_0000_0000 <= (a * t) * t
        <= 0x100_0000_0000_0000_0000_0000_0000_0000) by (nonlinear_arith)
        requires
            -0x10_0000_0000_0000_0000_0000_0000 <= a * t <= 0x10_0000_0000_0000_0000_0000_0000,
            0 <= t <= 600_001;
    assert(-0x100_0000_0000_0000_0000_0000_0000_0000 <= b * t
        <= 0x100_0000_0000_0000_0000_0000_0000_0000) by (nonlinear_arith)
        requires
            -0x1_0000_0000_0000_0000_0000_0000 <= b <= 0x1_0000_0000_0000_0000_0000_0000,
            0 <= t <= 600_001;
}

/// Time of flight, in whole milliseconds, of a projectile of speed `speed`
/// (thousandths of a unit per second) fired at a target at relative position
/// `dp` moving with constant relative velocity `dv`, or `None` when no
/// positive intercept time within the horizon exists.
pub fn intercept_time(dp: Vec2, dv: Vec2, speed: i64) -> (r: Option<i64>)
    requires
        dp.bounded(DP_LIMIT as int),
        dv.bounded(DV_LIMIT as int),
        0 <= speed <= SPEED_LIMIT,
    ensures
        intercept_post(dp, dv, speed as int, r),
{
    let n_dv = dv.norm_sq();
    let d = dv.dot(dp);
    let n_dp = dp.norm_sq();
    proof {
        lemma_coeff_bounds(dp, dv, speed as int);
    }
    let a: i128 = n_dv - (speed as i128) * (speed as i128);
    let b: i128 = 2000 * d;
    let c: i128 = 1_000_000 * n_dp;
    if a == 0 {
        return None;
    }
    let mut t: i64 = 0;
    while t < HORIZON_MS
        invariant
            0 <= t <= HORIZON_MS,
            a as int == coeff_a(dv, speed as int),
            b as int == coeff_b(dp, dv),
            c as int == coeff_c(dp),
            a != 0,
            -0x1_0000_0000_0000_0000_0000 <= a <= 0x1_0000_0000_0000_0000_0000,
            -0x1_0000_0000_0000_0000_0000_0000 <= b <= 0x1_0000_0000_0000_0000_0000_0000,
            -0x1_0000_0000_0000_0000_0000_0000 <= c <= 0x1_0000_0000_0000_0000_0000_0000,
            forall|u: int| 0 <= u <= t ==> quad(a as int, b as int, c as int, u) >= 0,
        decreases HORIZON_MS - t,
    {
        if eval_quad(a, b, c, t + 1) < 0 {
            return Some(t);
        }
        t = t + 1;
    }
    None
}

/// The coefficients computed from bounded inputs stay within the bounds that
/// [`eval_quad`] needs.
proof fn lemma_coeff_bounds(dp: Vec2, dv: Vec2, speed: int)
    requires
        dp.bounded(DP_LIMIT as int),
        dv.bounded(DV_LIMIT as int),
        0 <= speed <= SPEED_LIMIT,
    ensures
        -0x1_0000_0000_0000_0000_0000 <= coeff_a(dv, speed) <= 0x1_0000_0000_0000_0000_0000,
        -0x1_0000_0000_0000_0000_0000_0000 <= coeff_b(dp, dv)
            <= 0x1_0000_0000_0000_0000_0000_0000,
        0 <= coeff_c(dp) <= 0x1_0000_0000_0000_0000_0000_0000,
        0 <= dv.x * dv.x + dv.y * dv.y <= 800_000_000_000_000,
        -800_000_000_000_000 <= dv.x * dp.x + dv.y * dp.y <= 800_000_000_000_000,
        0 <= dp.x * dp.x + dp.y * dp.y <= 800_000_000_000_000,
        0 <= speed * speed <= 100_000_000_000_000,
{
    assert(dv.x * dv.x <= 400_000_000_000_000 && dv.x * dv.x >= 0) by (nonlinear_arith)
        requires
            -20_000_000 <= dv.x <= 20_000_000;
    assert(dv.y * dv.y <= 400_000_000_000_000 && dv.y * dv.y >= 0) by (nonlinear_arith)
        requires
            -20_000_000 <= dv.y <= 20_000_000;
    assert(speed * speed <= 100_000_000_000_000 && speed * speed >= 0) by (nonlinear_arith)
        requires
            0 <= speed <= 10_000_000;
    assert(-400_000_000_000_000 <= dv.x * dp.x <= 400_000_000_000_000) by (nonlinear_arith)
        requires
            -20_000_000 <= dv.x <= 20_000_000,
            -20_000_000 <= dp.x <= 20_000_000;
    assert(-400_000_000_000_000 <= dv.y * dp.y <= 400_000_000_000_000) by (nonlinear_arith)
        requires
            -20_000_000 <= dv.y <= 20_000_000,
            -20_000_000 <= dp.y <= 20_000_000;
    assert(dp.x * dp.x <= 400_000_000_000_000 && dp.x * dp.x >= 0) by (nonlinear_arith)
        requires
            -20_000_000 <= dp.x <= 20_000_000;
    assert(dp.y * dp.y <= 400_000_000_000_000 && dp.y * dp.y >= 0) by (nonlinear_arith)
        requires
            -20_000_000 <= dp.y <= 20_000_000;
}

/// The intercept quadratic is a squared distance when the projectile cannot
/// move: with `speed == 0` it is `|dv*t + 1000*dp|^2`, never negative, so
/// [`intercept_time`] owes no solution against a moving target.
pub proof fn lemma_zero_speed_unreachable(dp: Vec2, dv: Vec2, u: int)
    ensures
        quad(coeff_a(dv, 0), coeff_b(dp, dv), coeff_c(dp), u) == (dv.x * u + 1000 * dp.x) * (
        dv.x * u + 1000 * dp.x) + (dv.y * u + 1000 * dp.y) * (dv.y * u + 1000 * dp.y),
        quad(coeff_a(dv, 0), coeff_b(dp, dv), coeff_c(dp), u) >= 0,
{
    let x = dv.x as int;
    let y = dv.y as int;
    let px = dp.x as int;
    let py = dp.y as int;
    let ex = x * u + 1000 * px;
    let ey = y * u + 1000 * py;
    assert((x * u + 1000 * px) * (x * u + 1000 * px) == (x * x) * (u * u) + 2000 * (x * px) * u
        + 1_000_000 * (px * px)) by (nonlinear_arith);
    assert((y * u + 1000 * py) * (y * u + 1000 * py) == (y * y) * (u * u) + 2000 * (y * py) * u
        + 1_000_000 * (py * py)) by (nonlinear_arith);
    assert((x * x + y * y) * u * u + 2000 * (x * px + y * py) * u + 1_000_000 * (px * px + py * py)
        == (x * x) * (u * u) + (y * y) * (u * u) + 2000 * (x * px) * u + 2000 * (y * py) * u
        + 1_000_000 * (px * px) + 1_000_000 * (py * py)) by (nonlinear_arith);
    assert((x * x + y * y) * u * u + 2000 * (x * px + y * py) * u + 1_000_000 * (px * px + py * py)
        == ex * ex + ey * ey);
    assert(coeff_a(dv, 0) == x * x + y * y);
    assert(quad(coeff_a(dv, 0), coeff_b(dp, dv), coeff_c(dp), u) == (x * x + y * y) * u * u + 2000
        * (x * px + y * py) * u + 1_000_000 * (px * px + py * py)) by (nonlinear_arith)
        requires
            coeff_a(dv, 0) == x * x + y * y,
            coeff_b(dp, dv) == 2000 * (x * px + y * py),
            coeff_c(dp) == 1_000_000 * (px * px + py * py),
            quad(coeff_a(dv, 0), coeff_b(dp, dv), coeff_c(dp), u) == coeff_a(dv, 0) * u * u
                + coeff_b(dp, dv) * u + coeff_c(dp);
    crate::vec2::lemma_square_nonneg(ex);
    crate::vec2::lemma_square_nonneg(ey);
}

/// A negative discriminant with a positive leading coefficient means the
/// quadratic never touches zero: the target outruns the projectile on a
/// geometry with no intercept, and the solver owes no solution.
pub proof fn lemma_negative_discriminant_unreachable(a: int, b: int, c: int, u: int)
    requires
        a > 0,
        b * b - 4 * a * c < 0,
    ensures
        quad(a, b, c, u) > 0,
{
    let q = quad(a, b, c, u);
    assert(4 * a * q == (2 * a * u + b) * (2 * a * u + b) + (4 * a * c - b * b))
        by (nonlinear_arith)
        requires
            q == a * u * u + b * u + c;
    crate::vec2::lemma_square_nonneg(2 * a * u + b);
    assert(4 * a * q > 0);
    assert(q > 0) by (nonlinear_arith)
        requires
            a > 0,
            4 * a * q > 0;
}

/// With a projectile that cannot move, the solver never reports an
/// intercept, whatever the geometry.
pub proof fn lemma_zero_speed_no_intercept(dp: Vec2, dv: Vec2, r: Option<i64>)
    requires
        intercept_post(dp, dv, 0, r),
    ensures
        r is None,
{
    match r {
        Some(t) => {
            lemma_zero_speed_unreachable(dp, dv, t + 1);
        },
        None => {},
    }
}

/// With a target faster than the projectile on a geometry whose
/// discriminant is negative, the solver never reports an intercept.
pub proof fn lemma_negative_discriminant_no_intercept(
    dp: Vec2,
    dv: Vec2,
    speed: int,
    r: Option<i64>,
)
    requires
        coeff_a(dv, speed) > 0,
        coeff_b(dp, dv) * coeff_b(dp, dv) - 4 * coeff_a(dv, speed) * coeff_c(dp) < 0,
        intercept_post(dp, dv, speed, r),
    ensures
        r is None,
{
    match r {
        Some(t) => {
            lemma_negative_discriminant_unreachable(
                coeff_a(dv, speed),
                coeff_b(dp, dv),
                coeff_c(dp),
                t + 1,
            );
        },
        None => {},
    }
}

/// The solver's answer is a function of its arguments alone: any two results
/// that satisfy its contract on the same inputs are equal.
pub proof fn lemma_intercept_deterministic(
    dp: Vec2,
    dv: Vec2,
    speed: int,
    r1: Option<i64>,
    r2: Option<i64>,
)
    requires
        intercept_post(dp, dv, speed, r1),
        intercept_post(dp, dv, speed, r2),
    ensures
        r1 == r2,
{
    let a = coeff_a(dv, speed);
    let b = coeff_b(dp, dv);
    let c = coeff_c(dp);
    match (r1, r2) {
        (Some(t1), Some(t2)) => {
            if t1 < t2 {
                assert(quad(a, b, c, t1 + 1) >= 0);
            }
            if t2 < t1 {
                assert(quad(a, b, c, t2 + 1) >= 0);
            }
        },
        (Some(t1), None) => {
            assert(quad(a, b, c, t1 + 1) >= 0);
        },
        (None, Some(t2)) => {
            assert(quad(a, b, c, t2 + 1) >= 0);
        },
        (None, None) => {},
    }
}

} // verus!
