//! Kinematic differencer: backward finite differences of an observed point's
//! position, giving per-tick velocity, acceleration and jerk estimates.

use vstd::prelude::*;

use crate::vec2::Vec2;

verus! {

/// Positions fed to the differencer stay within this many thousandths of a
/// unit of the origin.
pub const POS_LIMIT: i64 = 10_000_000;

/// Componentwise sum, as a mathematical function (exact when in range).
pub open spec fn vadd(a: Vec2, b: Vec2) -> Vec2 {
    Vec2 { x: (a.x + b.x) as i64, y: (a.y + b.y) as i64 }
}

/// Componentwise difference, as a mathematical function (exact when in range).
pub open spec fn vsub(a: Vec2, b: Vec2) -> Vec2 {
    Vec2 { x: (a.x - b.x) as i64, y: (a.y - b.y) as i64 }
}

/// The derivative estimates produced by one update, all in per-tick units:
/// velocity in position units per tick, acceleration per tick squared, jerk
/// per tick cubed.
#[derive(Clone, Copy, Debug, PartialEq, Eq, Structural)]
pub struct Estimate {
    pub vel: Vec2,
    pub accel: Vec2,
    pub jerk: Vec2,
}

/// The stored history: the previous position sample and the estimates
/// differenced from it last tick. All derivatives are zero by convention
/// until real samples arrive, so the first updates show a transient spike.
#[derive(Clone, Copy, Debug, PartialEq, Eq, Structural)]
pub struct Differencer {
    pub prev_pos: Vec2,
    pub prev_vel: Vec2,
    pub prev_accel: Vec2,
}

/// What one update reports: each derivative is the backward difference of
/// the order below it.
pub open spec fn step_estimate(s: Differencer, pos: Vec2) -> Estimate {
    let vel = vsub(pos, s.prev_pos);
    let accel = vsub(vel, s.prev_vel);
    Estimate { vel, accel, jerk: vsub(accel, s.prev_accel) }
}

/// What one update stores: the new sample and the two lowest-order
/// differences, read again next tick.
pub open spec fn step_state(s: Differencer, pos: Vec2) -> Differencer {
    let e = step_estimate(s, pos);
    Differencer { prev_pos: pos, prev_vel: e.vel, prev_accel: e.accel }
}

impl Differencer {
    /// Bounds under which every difference below stays exact.
    pub open spec fn wf(self) -> bool {
        &&& self.prev_pos.bounded(POS_LIMIT as int)
        &&& self.prev_vel.bounded(2 * POS_LIMIT as int)
        &&& self.prev_accel.bounded(4 * POS_LIMIT as int)
    }

    /// A fresh history: zero position, zero derivatives.
    pub fn new() -> (r: Differencer)
        ensures
            r.prev_pos == (Vec2 { x: 0, y: 0 }),
            r.prev_vel == (Vec2 { x: 0, y: 0 }),
            r.prev_accel == (Vec2 { x: 0, y: 0 }),
            r.wf(),
    {
        Differencer {
            prev_pos: Vec2::zero(),
            prev_vel: Vec2::zero(),
            prev_accel: Vec2::zero(),
        }
    }

    /// Difference a new position sample against the stored history, then
    /// store the new sample and its differences for next tick. Differencing
    /// strictly precedes storing; reversing that order would zero every
    /// derivative.
    pub fn update(&mut self, pos: Vec2) -> (e: Estimate)
        requires
            old(self).wf(),
            pos.bounded(POS_LIMIT as int),
        ensures
            e == step_estimate(*old(self), pos),
            *final(self) == step_state(*old(self), pos),
            final(self).wf(),
            e.vel.bounded(2 * POS_LIMIT as int),
            e.accel.bounded(4 * POS_LIMIT as int),
            e.jerk.bounded(8 * POS_LIMIT as int),
    {
        let vel = pos.sub(self.prev_pos);
        let accel = vel.sub(self.prev_vel);
        let jerk = accel.sub(self.prev_accel);
        self.prev_pos = pos;
        self.prev_vel = vel;
        self.prev_accel = accel;
        Estimate { vel, accel, jerk }
    }
}

/// On the very first update, with zero-initialized history and the sample
/// still at the origin, every derivative estimate is the zero vector.
pub proof fn lemma_zero_state()
    ensures
        step_estimate(
            Differencer {
                prev_pos: Vec2 { x: 0, y: 0 },
                prev_vel: Vec2 { x: 0, y: 0 },
                prev_accel: Vec2 { x: 0, y: 0 },
            },
            Vec2 { x: 0, y: 0 },
        ) == (Estimate {
            vel: Vec2 { x: 0, y: 0 },
            accel: Vec2 { x: 0, y: 0 },
            jerk: Vec2 { x: 0, y: 0 },
        }),
{
}

/// A target moving with a constant per-tick displacement `d` is estimated
/// exactly after two consecutive samples: the second update reports velocity
/// `d`, and the third reports velocity `d` with zero acceleration, whatever
/// history the differencer started from. (A displacement of `d` per tick is
/// a velocity of `d / dt` per second, for any tick length `dt`.)
pub proof fn lemma_constant_velocity_convergence(s0: Differencer, p0: Vec2, d: Vec2)
    requires
        s0.wf(),
        p0.bounded(POS_LIMIT as int),
        d.bounded(POS_LIMIT as int),
    ensures
        step_estimate(step_state(s0, p0), vadd(p0, d)).vel == d,
        step_estimate(step_state(step_state(s0, p0), vadd(p0, d)), vadd(vadd(p0, d), d)).vel == d,
        step_estimate(step_state(step_state(s0, p0), vadd(p0, d)), vadd(vadd(p0, d), d)).accel
            == (Vec2 { x: 0, y: 0 }),
{
}

} // verus!
