use interceptor::angle::{angle_diff, wrap_angle, HALF_PI_URAD, PI_URAD};
use interceptor::differencer::Differencer;
use interceptor::ship::{Config, Ship, TickOutcome};
use interceptor::vec2::Vec2;

fn v(x: i64, y: i64) -> Vec2 {
    Vec2::new(x, y)
}

fn cfg() -> Config {
    Config {
        bullet_speed: 1_000_000,
        tick_ms: 20,
        k_p: 60,
        k_d: 833,
        fire_threshold: 75_000,
        scan_step: HALF_PI_URAD,
        scan_width: HALF_PI_URAD,
        track_width: 157_080,
        chase: false,
    }
}

#[test]
fn differencer_zero_state() {
    // First call on zero-initialized history with the sample at the origin:
    // every derivative is the zero vector.
    let mut d = Differencer::new();
    let e = d.update(v(0, 0));
    assert_eq!(e.vel, v(0, 0));
    assert_eq!(e.accel, v(0, 0));
    assert_eq!(e.jerk, v(0, 0));
}

#[test]
fn differencer_constant_velocity() {
    // Constant per-tick displacement: the second sample already reports it
    // as the velocity, and the third reports zero acceleration.
    let mut d = Differencer::new();
    let p0 = v(5_000, 7_000);
    let step = v(10_000, -2_000);
    d.update(p0);
    let e2 = d.update(v(15_000, 5_000));
    assert_eq!(e2.vel, step);
    let e3 = d.update(v(25_000, 3_000));
    assert_eq!(e3.vel, step);
    assert_eq!(e3.accel, v(0, 0));
}

#[test]
fn servo_symmetry() {
    // Negated error with negated history gives exactly negated output.
    let mut a = Ship::new(cfg());
    let mut b = Ship::new(cfg());
    let out_pos = a.pid(1234);
    let out_neg = b.pid(-1234);
    assert_eq!(out_pos, -out_neg);
    assert_eq!(out_pos, (60 + 833) * 1234);
    // Histories are now 1234 and -1234; a second symmetric step still
    // negates exactly.
    let second_pos = a.pid(200);
    let second_neg = b.pid(-200);
    assert_eq!(second_pos, -second_neg);
    assert_eq!(second_pos, 60 * 200 + 833 * (200 - 1234));
}

#[test]
fn acquisition_policy_transitions() {
    // Observations [Some, Some, None, Some] drive the mode through
    // Tracking, Tracking, Searching, Tracking, with the narrow aperture
    // only on tracking ticks.
    let mut s = Ship::new(cfg());
    let contact = v(1_000_000, 0);
    let me = v(0, 0);
    let still = v(0, 0);

    match s.tick(me, still, Some(contact)) {
        TickOutcome::Tracking(_) => {},
        TickOutcome::Searching(_) => panic!("expected tracking"),
    }
    assert!(s.tracking);
    let narrow = s.track_mode(0);
    assert_eq!(narrow.width, 157_080);

    match s.tick(me, still, Some(contact)) {
        TickOutcome::Tracking(_) => {},
        TickOutcome::Searching(_) => panic!("expected tracking"),
    }
    assert!(s.tracking);

    match s.tick(me, still, None) {
        TickOutcome::Searching(radar) => {
            assert_eq!(radar.width, HALF_PI_URAD);
        },
        TickOutcome::Tracking(_) => panic!("expected searching"),
    }
    assert!(!s.tracking);
    // The servo history was fed a zero error, so reacquisition sees no
    // derivative spike.
    assert_eq!(s.prev_angle_diff, 0);

    match s.tick(me, still, Some(contact)) {
        TickOutcome::Tracking(_) => {},
        TickOutcome::Searching(_) => panic!("expected tracking"),
    }
    assert!(s.tracking);
}

#[test]
fn scan_sweep_retreats_each_tick() {
    let mut s = Ship::new(cfg());
    let me = v(0, 0);
    let still = v(0, 0);
    let first = match s.tick(me, still, None) {
        TickOutcome::Searching(radar) => radar.heading,
        TickOutcome::Tracking(_) => panic!("expected searching"),
    };
    assert_eq!(first, -HALF_PI_URAD);
    let second = match s.tick(me, still, None) {
        TickOutcome::Searching(radar) => radar.heading,
        TickOutcome::Tracking(_) => panic!("expected searching"),
    };
    assert_eq!(second, -2 * HALF_PI_URAD);
    let third = match s.tick(me, still, None) {
        TickOutcome::Searching(radar) => radar.heading,
        TickOutcome::Tracking(_) => panic!("expected searching"),
    };
    // Wrapped back onto (-pi, pi].
    assert_eq!(third, -3 * HALF_PI_URAD + 2 * PI_URAD);
}

#[test]
fn stationary_target_end_to_end() {
    // Target fixed at (1000, 0), agent at the origin, projectile at 1000
    // units/s. Once the transient has flushed through the differencer the
    // flight time is exactly one second, the corrected aim point is the
    // target itself, and the servo sits at zero error with the trigger open.
    let mut s = Ship::new(cfg());
    let contact = v(1_000_000, 0);
    let me = v(0, 0);
    let still = v(0, 0);
    let mut last = None;
    for _ in 0..4 {
        match s.tick(me, still, Some(contact)) {
            TickOutcome::Tracking(aim) => last = Some(aim),
            TickOutcome::Searching(_) => panic!("expected tracking"),
        }
    }
    let aim = last.unwrap();
    assert_eq!(aim.flight_time, Some(1000));
    assert_eq!(aim.lead, v(1_000_000, 0));
    assert_eq!(aim.aim, v(1_000_000, 0));
    assert_eq!(aim.target_vel, v(0, 0));

    // The aim point's bearing is zero; the agent already faces it.
    let steer = s.steer(0, 0);
    assert_eq!(steer.angle_error, 0);
    assert_eq!(steer.torque, 0);
    assert!(steer.fire);
}

#[test]
fn crossing_target_leads_ahead() {
    // Target at (0, 1000) moving (500, 0), agent stationary at the origin:
    // a positive flight time under two seconds, and the lead point lies
    // ahead of the target along its motion.
    let mut s = Ship::new(cfg());
    let me = v(0, 0);
    let still = v(0, 0);
    let mut last = None;
    for k in 0..4i64 {
        // 500 units/s is 10 units per 20 ms tick.
        let contact = v(10_000 * k, 1_000_000);
        match s.tick(me, still, Some(contact)) {
            TickOutcome::Tracking(aim) => last = Some(aim),
            TickOutcome::Searching(_) => panic!("expected tracking"),
        }
    }
    let aim = last.unwrap();
    assert_eq!(aim.target_vel, v(500_000, 0));
    match aim.flight_time {
        Some(t) => {
            assert!(t > 0);
            assert!(t < 2000);
        },
        None => panic!("expected an intercept"),
    }
    assert!(aim.lead.x > 30_000);
    assert_eq!(aim.lead.y, 1_000_000);
}

#[test]
fn first_contact_velocity_estimate_saturates() {
    // The first contact after acquisition looks like a huge velocity spike;
    // the per-second estimate is saturated rather than fed raw to the
    // solver.
    let mut s = Ship::new(cfg());
    let aim = s.process_contact(v(0, 0), v(0, 0), v(1_000_000, 0));
    assert_eq!(aim.target_vel.x, 10_000_000);
    assert_eq!(aim.target_vel.y, 0);
}

#[test]
fn fire_gate_is_strict() {
    let mut inside = Ship::new(cfg());
    let hit = inside.steer(0, 74_999);
    assert_eq!(hit.angle_error, 74_999);
    assert!(hit.fire);

    let mut outside = Ship::new(cfg());
    let miss = outside.steer(0, 75_000);
    assert_eq!(miss.angle_error, 75_000);
    assert!(!miss.fire);
    // Torque includes the angular-rate feed-forward: the error plus the
    // scaled bearing rate, through the proportional and derivative gains.
    let rate = 75_000 * 20 / 1000;
    let u = 75_000 + rate;
    assert_eq!(miss.torque, (60 + 833) * u);
}

#[test]
fn pursuit_command_when_chasing() {
    let mut tuning = cfg();
    tuning.chase = true;
    let mut s = Ship::new(tuning);
    let contact = v(1_000_000, 0);
    let me = v(0, 0);
    let still = v(0, 0);
    let mut last = None;
    for _ in 0..4 {
        last = Some(s.process_contact(me, still, contact));
    }
    // Steady state: relative velocity zero, pursuit is distance / 25.
    let aim = last.unwrap();
    assert_eq!(aim.accel_cmd, v(40_000, 0));
}

#[test]
fn wrap_angle_onto_half_open_range() {
    assert_eq!(wrap_angle(0), 0);
    assert_eq!(wrap_angle(PI_URAD), PI_URAD);
    assert_eq!(wrap_angle(PI_URAD + 1), PI_URAD + 1 - 2 * PI_URAD);
    assert_eq!(wrap_angle(-PI_URAD), PI_URAD);
    assert_eq!(wrap_angle(2 * PI_URAD), 0);
    assert_eq!(wrap_angle(-7 * PI_URAD), PI_URAD);
}

#[test]
fn track_mode_wraps_bearing_onto_range() {
    // A bearing of exactly -pi is stored as +pi: the same direction, inside
    // the controller's half-open range.
    let mut s = Ship::new(cfg());
    let radar = s.track_mode(-PI_URAD);
    assert_eq!(radar.heading, PI_URAD);
    assert_eq!(radar.width, 157_080);
    assert_eq!(s.current_heading, PI_URAD);
}

#[test]
fn flight_time_method_matches_solver() {
    let s = Ship::new(cfg());
    let dp = v(1_000_000, 0);
    let dv = v(0, 0);
    assert_eq!(
        s.predict_time_of_flight(dp, dv),
        interceptor::solver::intercept_time(dp, dv, 1_000_000)
    );
    assert_eq!(s.predict_time_of_flight(dp, dv), Some(1000));
}

#[test]
fn angle_diff_takes_shortest_path() {
    // Just across the wrap seam: the short way round is two microradians,
    // not nearly a full turn.
    assert_eq!(angle_diff(PI_URAD - 1, -PI_URAD + 1), 2);
    assert_eq!(angle_diff(-PI_URAD + 1, PI_URAD - 1), -2);
    assert_eq!(angle_diff(0, HALF_PI_URAD), HALF_PI_URAD);
    assert_eq!(angle_diff(PI_URAD, -PI_URAD), 0);
}
