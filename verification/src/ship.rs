//! The per-tick controller: estimator, intercept solve, acceleration-corrected
//! aim, heading servo and search/track sensor policy, threaded through one
//! mutable state record.
//!
//! Transcendental steps (the bearing of an aim point, sensor reads, actuation)
//! belong to the host shell: the controller takes plain fixed-point values and
//! returns commands.

use vstd::prelude::*;

use crate::angle::{angle_diff, same_direction, wrap_angle, PI_URAD, TWO_PI_URAD};
use crate::differencer::{step_estimate, step_state, vadd, vsub, Differencer, Estimate, POS_LIMIT};
use crate::fixed::{clamp_spec, clamp_to, tdiv, tdiv_spec};
use crate::solver::{intercept_post, intercept_time, SPEED_LIMIT};
use crate::vec2::Vec2;

verus! {

/// Per-second velocity estimates are saturated into this bound (thousandths
/// of a unit per second) before they feed the solver and the lead formula.
pub const VEL_LIMIT: i64 = 10_000_000;

/// Per-second-squared acceleration estimates are saturated into this bound.
pub const ACC_LIMIT: i64 = 10_000_000;

/// Largest angular error (millionths of a radian) the servo accepts.
pub const SERVO_INPUT_LIMIT: i64 = 10_000_000;

/// Fixed tuning of one controller instance.
#[derive(Clone, Copy, Debug, PartialEq, Eq, Structural)]
pub struct Config {
    /// Projectile speed, thousandths of a unit per second.
    pub bullet_speed: i64,
    /// Simulation step length, milliseconds.
    pub tick_ms: i64,
    /// Proportional servo gain (torque per microradian of error).
    pub k_p: i64,
    /// Derivative servo gain (torque per microradian of per-tick error change).
    pub k_d: i64,
    /// Fire when the wrapped angular error is strictly inside this bound.
    pub fire_threshold: i64,
    /// How far the sensor sweep heading retreats each searching tick.
    pub scan_step: i64,
    /// Sensor aperture while searching (wide).
    pub scan_width: i64,
    /// Sensor aperture while tracking (narrow).
    pub track_width: i64,
    /// Emit a pursuit acceleration toward the target while tracking.
    pub chase: bool,
}

impl Config {
    /// Ranges under which every computation below is exact and in bounds.
    pub open spec fn wf(self) -> bool {
        &&& 0 <= self.bullet_speed <= SPEED_LIMIT
        &&& 1 <= self.tick_ms <= 1000
        &&& 0 <= self.k_p <= 100_000
        &&& 0 <= self.k_d <= 1_000_000
        &&& 0 <= self.fire_threshold <= PI_URAD
        &&& -TWO_PI_URAD <= self.scan_step <= TWO_PI_URAD
        &&& 0 < self.scan_width <= TWO_PI_URAD
        &&& 0 < self.track_width <= TWO_PI_URAD
    }
}

/// The proportional-plus-rate control law: `k_p * e + k_d * (e - prev)`.
/// There is no integral term and no bias.
pub open spec fn servo_out(cfg: Config, e: int, prev: int) -> int {
    cfg.k_p * e + cfg.k_d * (e - prev)
}

/// Magnitude of a mathematical integer.
pub open spec fn iabs(x: int) -> int {
    if x >= 0 {
        x
    } else {
        -x
    }
}

/// A per-tick delta, converted to per-second units and saturated.
pub open spec fn per_second_vel(cfg: Config, v: Vec2) -> Vec2 {
    Vec2 {
        x: clamp_spec(tdiv_spec(v.x * 1000, cfg.tick_ms as int), VEL_LIMIT as int) as i64,
        y: clamp_spec(tdiv_spec(v.y * 1000, cfg.tick_ms as int), VEL_LIMIT as int) as i64,
    }
}

/// A per-tick-squared delta, converted to per-second-squared units and
/// saturated.
pub open spec fn per_second_accel(cfg: Config, a: Vec2) -> Vec2 {
    Vec2 {
        x: clamp_spec(
            tdiv_spec(a.x * 1_000_000, cfg.tick_ms * cfg.tick_ms),
            ACC_LIMIT as int,
        ) as i64,
        y: clamp_spec(
            tdiv_spec(a.y * 1_000_000, cfg.tick_ms * cfg.tick_ms),
            ACC_LIMIT as int,
        ) as i64,
    }
}

/// Linear lead: where the target will be after `t` milliseconds at constant
/// velocity `tv` (thousandths of a unit per second).
pub open spec fn lead_point(contact: Vec2, tv: Vec2, t: int) -> Vec2 {
    Vec2 {
        x: (contact.x + tdiv_spec(tv.x * t, 1000)) as i64,
        y: (contact.y + tdiv_spec(tv.y * t, 1000)) as i64,
    }
}

/// Second-order correction `a * t^2 / 2` for the target's estimated
/// acceleration `acc` (thousandths of a unit per second squared) over `t`
/// milliseconds.
pub open spec fn accel_correction(acc: Vec2, t: int) -> Vec2 {
    Vec2 {
        x: tdiv_spec(acc.x * t * t, 2_000_000) as i64,
        y: tdiv_spec(acc.y * t * t, 2_000_000) as i64,
    }
}

/// What one contact produces: the solved flight time, the linear lead point,
/// the acceleration-corrected aim point, the saturated per-second velocity
/// estimate behind them, and a pursuit acceleration command.
#[derive(Clone, Copy, Debug)]
pub struct AimResult {
    pub flight_time: Option<i64>,
    pub lead: Vec2,
    pub aim: Vec2,
    pub target_vel: Vec2,
    pub accel_cmd: Vec2,
}

/// Where the sensor should point next tick, and how wide.
#[derive(Clone, Copy, Debug, PartialEq, Eq, Structural)]
pub struct RadarCommand {
    pub heading: i64,
    pub width: i64,
}

/// Torque and trigger decision for one tick.
#[derive(Clone, Copy, Debug, PartialEq, Eq, Structural)]
pub struct SteerCommand {
    pub torque: i64,
    pub fire: bool,
    pub angle_error: i64,
}

/// What one tick returns: either a sweep command (no contact) or an aim
/// solution (contact) whose bearing the shell turns into a steer call.
#[derive(Clone, Copy, Debug)]
pub enum TickOutcome {
    Searching(RadarCommand),
    Tracking(AimResult),
}

/// The controller: fixed tuning plus the per-tick history record. Every
/// `prev`-flavored field holds last tick's value and is overwritten exactly
/// once per tick, after being differenced against.
pub struct Ship {
    pub cfg: Config,
    /// Current sensor mode: searching (false) or tracking (true).
    pub tracking: bool,
    /// Sensor sweep heading, wrapped to `(-pi, pi]`.
    pub current_heading: i64,
    /// Finite-difference history of the observed target.
    pub estimator: Differencer,
    /// One-tick-ahead acceleration prediction (per tick squared): telemetry
    /// and aim correction only, never fed back into the estimator.
    pub pred_accel: Vec2,
    /// One-tick-ahead velocity prediction (per tick).
    pub pred_vel: Vec2,
    /// Last tick's desired bearing, for the angular-rate feed-forward.
    pub prev_angle: i64,
    /// Last tick's servo input, for the derivative term.
    pub prev_angle_diff: i64,
}

impl Ship {
    /// Every bound the methods below rely on.
    pub open spec fn wf(self) -> bool {
        &&& self.cfg.wf()
        &&& self.estimator.wf()
        &&& self.pred_accel.bounded(12 * POS_LIMIT as int)
        &&& self.pred_vel.bounded(14 * POS_LIMIT as int)
        &&& -PI_URAD < self.current_heading <= PI_URAD
        &&& -PI_URAD <= self.prev_angle <= PI_URAD
        &&& -SERVO_INPUT_LIMIT <= self.prev_angle_diff <= SERVO_INPUT_LIMIT
    }

    /// A controller in its initial state: searching, with every history
    /// field zeroed.
    pub fn new(cfg: Config) -> (r: Ship)
        requires
            cfg.wf(),
        ensures
            r.cfg == cfg,
            !r.tracking,
            r.current_heading == 0,
            r.estimator.prev_pos == (Vec2 { x: 0, y: 0 }),
            r.estimator.prev_vel == (Vec2 { x: 0, y: 0 }),
            r.estimator.prev_accel == (Vec2 { x: 0, y: 0 }),
            r.pred_accel == (Vec2 { x: 0, y: 0 }),
            r.pred_vel == (Vec2 { x: 0, y: 0 }),
            r.prev_angle == 0,
            r.prev_angle_diff == 0,
            r.wf(),
    {
        Ship {
            cfg,
            tracking: false,
            current_heading: 0,
            estimator: Differencer::new(),
            pred_accel: Vec2::zero(),
            pred_vel: Vec2::zero(),
            prev_angle: 0,
            prev_angle_diff: 0,
        }
    }

    /// Time of flight of a projectile at the configured speed against a
    /// target at relative position `dp` with relative velocity `dv`.
    pub fn predict_time_of_flight(&self, dp: Vec2, dv: Vec2) -> (r: Option<i64>)
        requires
            self.wf(),
            dp.bounded(2 * POS_LIMIT as int),
            dv.bounded(2 * VEL_LIMIT as int),
        ensures
            intercept_post(dp, dv, self.cfg.bullet_speed as int, r),
    {
        intercept_time(dp, dv, self.cfg.bullet_speed)
    }

    /// One servo step on angular error `angle`: proportional plus derivative
    /// of the error against last tick's, then the error is stored.
    pub fn pid(&mut self, angle: i64) -> (r: i64)
        requires
            old(self).wf(),
            -SERVO_INPUT_LIMIT <= angle <= SERVO_INPUT_LIMIT,
        ensures
            r == servo_out(old(self).cfg, angle as int, old(self).prev_angle_diff as int),
            *final(self) == (Ship { prev_angle_diff: angle, ..*old(self) }),
            final(self).wf(),
    {
        let kp = self.cfg.k_p as i128;
        let kd = self.cfg.k_d as i128;
        let e = angle as i128;
        let prev = self.prev_angle_diff as i128;
        proof {
            assert(-1_000_000_000_000 <= kp * e <= 1_000_000_000_000) by (nonlinear_arith)
                requires
                    0 <= kp <= 100_000,
                    -10_000_000 <= e <= 10_000_000;
            assert(-20_000_000_000_000 <= kd * (e - prev) <= 20_000_000_000_000)
                by (nonlinear_arith)
                requires
                    0 <= kd <= 1_000_000,
                    -20_000_000 <= e - prev <= 20_000_000;
        }
        let out = kp * e + kd * (e - prev);
        self.prev_angle_diff = angle;
        out as i64
    }

    /// Advance the sweep: retreat the sensor heading by the configured step
    /// and open the aperture wide.
    pub fn scan_mode(&mut self) -> (r: RadarCommand)
        requires
            old(self).wf(),
        ensures
            r.heading == final(self).current_heading,
            -PI_URAD < r.heading <= PI_URAD,
            same_direction(
                r.heading as int,
                old(self).current_heading - old(self).cfg.scan_step,
            ),
            r.width == old(self).cfg.scan_width,
            *final(self) == (Ship { current_heading: r.heading, ..*old(self) }),
            final(self).wf(),
    {
        let h = wrap_angle(self.current_heading - self.cfg.scan_step);
        self.current_heading = h;
        RadarCommand { heading: h, width: self.cfg.scan_width }
    }

    /// Lock the sweep onto the last-known target bearing and narrow the
    /// aperture.
    pub fn track_mode(&mut self, bearing: i64) -> (r: RadarCommand)
        requires
            old(self).wf(),
            -PI_URAD <= bearing <= PI_URAD,
        ensures
            r.heading == final(self).current_heading,
            -PI_URAD < r.heading <= PI_URAD,
            same_direction(r.heading as int, bearing as int),
            r.width == old(self).cfg.track_width,
            *final(self) == (Ship { current_heading: r.heading, ..*old(self) }),
            final(self).wf(),
    {
        let h = wrap_angle(bearing);
        self.current_heading = h;
        RadarCommand { heading: h, width: self.cfg.track_width }
    }

    /// Everything [`Ship::process_contact`] promises: the estimator steps
    /// once on the contact, the predictions are one-step extrapolations, the
    /// flight time solves the intercept quadratic against the saturated
    /// per-second estimates, and the aim point is the lead point plus the
    /// half-acceleration correction. The flight-time fallback for `None` is
    /// zero: aim at the present position, hold fire.
    pub open spec fn contact_spec(
        pre: Ship,
        post: Ship,
        own_pos: Vec2,
        own_vel: Vec2,
        contact: Vec2,
        r: AimResult,
    ) -> bool {
        let e = step_estimate(pre.estimator, contact);
        let pa = vadd(e.accel, e.jerk);
        let pv = vadd(e.vel, pa);
        let tv = per_second_vel(pre.cfg, pv);
        let acc = per_second_accel(pre.cfg, pa);
        let dp = vsub(contact, own_pos);
        let dv = vsub(tv, own_vel);
        let t = match r.flight_time {
            Some(t) => t as int,
            None => 0,
        };
        &&& post.estimator == step_state(pre.estimator, contact)
        &&& post.pred_accel == pa
        &&& post.pred_vel == pv
        &&& post.cfg == pre.cfg
        &&& post.tracking == pre.tracking
        &&& post.current_heading == pre.current_heading
        &&& post.prev_angle == pre.prev_angle
        &&& post.prev_angle_diff == pre.prev_angle_diff
        &&& intercept_post(dp, dv, pre.cfg.bullet_speed as int, r.flight_time)
        &&& r.target_vel == tv
        &&& r.lead == lead_point(contact, tv, t)
        &&& r.aim == vadd(r.lead, accel_correction(acc, t))
        &&& r.accel_cmd == (if pre.cfg.chase {
            vadd(dv, Vec2 { x: tdiv_spec(dp.x as int, 25) as i64, y: tdiv_spec(dp.y as int, 25) as i64 })
        } else {
            Vec2 { x: 0, y: 0 }
        })
    }

    /// Estimate the target's motion from this tick's contact, solve the
    /// ballistic intercept against the one-step-ahead velocity prediction,
    /// and correct the lead point once for the estimated acceleration.
    pub fn process_contact(&mut self, own_pos: Vec2, own_vel: Vec2, contact: Vec2) -> (r:
        AimResult)
        requires
            old(self).wf(),
            own_pos.bounded(POS_LIMIT as int),
            own_vel.bounded(VEL_LIMIT as int),
            contact.bounded(POS_LIMIT as int),
        ensures
            Self::contact_spec(*old(self), *final(self), own_pos, own_vel, contact, r),
            final(self).wf(),
    {
        let est = self.estimator.update(contact);
        let pa = est.accel.add(est.jerk);
        let pv = est.vel.add(pa);
        self.pred_accel = pa;
        self.pred_vel = pv;

        let tick = self.cfg.tick_ms;
        proof {
            assert(1 <= (tick as i128) * (tick as i128) <= 1_000_000) by (nonlinear_arith)
                requires
                    1 <= tick as i128 <= 1000;
        }
        let tv = Vec2::new(
            clamp_to(tdiv((pv.x as i128) * 1000, tick as i128), VEL_LIMIT),
            clamp_to(tdiv((pv.y as i128) * 1000, tick as i128), VEL_LIMIT),
        );
        let acc = Vec2::new(
            clamp_to(
                tdiv((pa.x as i128) * 1_000_000, (tick as i128) * (tick as i128)),
                ACC_LIMIT,
            ),
            clamp_to(
                tdiv((pa.y as i128) * 1_000_000, (tick as i128) * (tick as i128)),
                ACC_LIMIT,
            ),
        );

        let dp = contact.sub(own_pos);
        let dv = tv.sub(own_vel);
        let flight_time = intercept_time(dp, dv, self.cfg.bullet_speed);
        let t = match flight_time {
            Some(t) => t,
            None => 0,
        };

        proof {
            assert(-6_000_000_000_000 <= (tv.x as i128) * (t as i128) <= 6_000_000_000_000
                && -6_000_000_000_000 <= (tv.y as i128) * (t as i128) <= 6_000_000_000_000)
                by (nonlinear_arith)
                requires
                    -10_000_000 <= tv.x as i128 <= 10_000_000,
                    -10_000_000 <= tv.y as i128 <= 10_000_000,
                    0 <= t as i128 <= 600_000;
            assert(-6_000_000_000_000 <= (acc.x as i128) * (t as i128) <= 6_000_000_000_000
                && -6_000_000_000_000 <= (acc.y as i128) * (t as i128) <= 6_000_000_000_000)
                by (nonlinear_arith)
                requires
                    -10_000_000 <= acc.x as i128 <= 10_000_000,
                    -10_000_000 <= acc.y as i128 <= 10_000_000,
                    0 <= t as i128 <= 600_000;
            assert(-3_600_000_000_000_000_000 <= (acc.x as i128) * (t as i128) * (t as i128)
                <= 3_600_000_000_000_000_000 && -3_600_000_000_000_000_000 <= (acc.y as i128) * (
            t as i128) * (t as i128) <= 3_600_000_000_000_000_000) by (nonlinear_arith)
                requires
                    -6_000_000_000_000 <= (acc.x as i128) * (t as i128) <= 6_000_000_000_000,
                    -6_000_000_000_000 <= (acc.y as i128) * (t as i128) <= 6_000_000_000_000,
                    0 <= t as i128 <= 600_000;
        }
        let lead = Vec2::new(
            contact.x + tdiv((tv.x as i128) * (t as i128), 1000) as i64,
            contact.y + tdiv((tv.y as i128) * (t as i128), 1000) as i64,
        );
        let aim = Vec2::new(
            lead.x + tdiv((acc.x as i128) * (t as i128) * (t as i128), 2_000_000) as i64,
            lead.y + tdiv((acc.y as i128) * (t as i128) * (t as i128), 2_000_000) as i64,
        );

        let accel_cmd = if self.cfg.chase {
            Vec2::new(dv.x + tdiv(dp.x as i128, 25) as i64, dv.y + tdiv(dp.y as i128, 25) as i64)
        } else {
            Vec2::zero()
        };

        AimResult { flight_time, lead, aim, target_vel: tv, accel_cmd }
    }

    /// Close the loop on heading: wrap the bearing error, add the
    /// angular-rate feed-forward, run the servo, and decide whether the
    /// error is inside the firing gate.
    pub fn steer(&mut self, heading: i64, desired: i64) -> (r: SteerCommand)
        requires
            old(self).wf(),
            -PI_URAD <= heading <= PI_URAD,
            -PI_URAD <= desired <= PI_URAD,
        ensures
            -PI_URAD < r.angle_error <= PI_URAD,
            same_direction(r.angle_error as int, desired - heading),
            r.torque == servo_out(
                old(self).cfg,
                r.angle_error + tdiv_spec(
                    (desired - old(self).prev_angle) * old(self).cfg.tick_ms,
                    1000,
                ),
                old(self).prev_angle_diff as int,
            ),
            r.fire <==> iabs(r.angle_error as int) < old(self).cfg.fire_threshold,
            *final(self) == (Ship {
                prev_angle: desired,
                prev_angle_diff: (r.angle_error + tdiv_spec(
                    (desired - old(self).prev_angle) * old(self).cfg.tick_ms,
                    1000,
                )) as i64,
                ..*old(self)
            }),
            final(self).wf(),
    {
        let angle = angle_diff(heading, desired);
        proof {
            assert(-6_300_000_000 <= ((desired - self.prev_angle) as i128) * (
            self.cfg.tick_ms as i128) <= 6_300_000_000) by (nonlinear_arith)
                requires
                    -6_300_000 <= (desired - self.prev_angle) as i128 <= 6_300_000,
                    1 <= self.cfg.tick_ms as i128 <= 1000;
        }
        let av = tdiv(((desired - self.prev_angle) as i128) * (self.cfg.tick_ms as i128), 1000)
            as i64;
        self.prev_angle = desired;
        let u = angle + av;
        let torque = self.pid(u);
        let fire = if angle >= 0 {
            angle < self.cfg.fire_threshold
        } else {
            -angle < self.cfg.fire_threshold
        };
        SteerCommand { torque, fire, angle_error: angle }
    }

    /// One controller tick: update the acquisition policy from this tick's
    /// observation, and either process the contact into an aim solution
    /// (tracking) or advance the sensor sweep (searching). The shell turns a
    /// `Tracking` outcome into `steer` and `track_mode` calls once it has
    /// taken the aim point's bearing.
    pub fn tick(&mut self, own_pos: Vec2, own_vel: Vec2, contact: Option<Vec2>) -> (r:
        TickOutcome)
        requires
            old(self).wf(),
            own_pos.bounded(POS_LIMIT as int),
            own_vel.bounded(VEL_LIMIT as int),
            contact matches Some(c) ==> c.bounded(POS_LIMIT as int),
        ensures
            final(self).tracking == contact.is_some(),
            final(self).wf(),
            match contact {
                Some(c) => match r {
                    TickOutcome::Tracking(aim) => Self::contact_spec(
                        *old(self),
                        Ship { tracking: old(self).tracking, ..*final(self) },
                        own_pos,
                        own_vel,
                        c,
                        aim,
                    ),
                    TickOutcome::Searching(_) => false,
                },
                None => match r {
                    TickOutcome::Searching(radar) => {
                        &&& radar.heading == final(self).current_heading
                        &&& -PI_URAD < radar.heading <= PI_URAD
                        &&& same_direction(
                            radar.heading as int,
                            old(self).current_heading - old(self).cfg.scan_step,
                        )
                        &&& radar.width == old(self).cfg.scan_width
                        &&& *final(self) == (Ship {
                            tracking: false,
                            current_heading: radar.heading,
                            prev_angle_diff: 0,
                            ..*old(self)
                        })
                    },
                    TickOutcome::Tracking(_) => false,
                },
            },
    {
        match contact {
            Some(c) => {
                let aim = self.process_contact(own_pos, own_vel, c);
                self.tracking = true;
                TickOutcome::Tracking(aim)
            },
            None => {
                self.tracking = false;
                // No valid target: feed the servo a zero error so no
                // derivative spike greets reacquisition. The output is
                // discarded; only the stored history matters here.
                let _discarded: i64 = self.pid(0);
                let radar = self.scan_mode();
                TickOutcome::Searching(radar)
            },
        }
    }
}

/// The servo law is odd: negating the error and its history negates the
/// output exactly, so the controller carries no bias term.
pub proof fn lemma_servo_symmetry(cfg: Config, e: int, prev: int)
    ensures
        servo_out(cfg, -e, -prev) == -servo_out(cfg, e, prev),
{
    let kp = cfg.k_p as int;
    let kd = cfg.k_d as int;
    assert(kp * (-e) + kd * ((-e) - (-prev)) == -(kp * e + kd * (e - prev))) by (nonlinear_arith);
}

} // verus!
