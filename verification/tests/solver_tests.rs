use interceptor::solver::intercept_time;
use interceptor::vec2::Vec2;

fn v(x: i64, y: i64) -> Vec2 {
    Vec2::new(x, y)
}

#[test]
fn stationary_target_exact_root() {
    // Target 1000 units away, no relative motion, projectile at 1000 units/s:
    // the analytic flight time is exactly one second.
    let r = intercept_time(v(1_000_000, 0), v(0, 0), 1_000_000);
    assert_eq!(r, Some(1000));
}

#[test]
fn stationary_target_diagonal() {
    // 3-4-5 triangle: distance 500 units, projectile at 1000 units/s, so the
    // flight time is exactly half a second.
    let r = intercept_time(v(300_000, 400_000), v(0, 0), 1_000_000);
    assert_eq!(r, Some(500));
}

#[test]
fn zero_speed_no_solution() {
    // A projectile that cannot move never catches a moving target.
    let r = intercept_time(v(1_000_000, 0), v(500_000, 0), 0);
    assert_eq!(r, None);
}

#[test]
fn negative_discriminant_no_solution() {
    // Target crossing at twice the projectile speed with no closing
    // component: the discriminant is negative and no intercept exists.
    let r = intercept_time(v(0, 1_000_000), v(2_000_000, 0), 1_000_000);
    assert_eq!(r, None);
}

#[test]
fn degenerate_leading_coefficient_no_solution() {
    // Relative speed exactly equal to projectile speed makes the quadratic
    // degenerate; that is reported as no solution rather than divided by.
    let r = intercept_time(v(1_000_000, 0), v(1_000_000, 0), 1_000_000);
    assert_eq!(r, None);
}

#[test]
fn receding_target_still_hit_when_slower() {
    // A target receding at half the projectile speed is still caught:
    // 1000 units of separation close at 500 units/s once the projectile is
    // chasing straight, giving a root of exactly two seconds.
    let r = intercept_time(v(1_000_000, 0), v(500_000, 0), 1_000_000);
    assert_eq!(r, Some(2000));
}

#[test]
fn zero_distance_zero_time() {
    // On top of the target: the first root is at time zero.
    let r = intercept_time(v(0, 0), v(500_000, 0), 1_000_000);
    assert_eq!(r, Some(0));
}

#[test]
fn crossing_target_positive_finite_root() {
    // Target 1000 units up, moving sideways at half projectile speed: a
    // positive, finite flight time under two seconds exists.
    let r = intercept_time(v(0, 1_000_000), v(500_000, 0), 1_000_000);
    match r {
        Some(t) => {
            assert!(t > 1000);
            assert!(t < 2000);
        },
        None => panic!("expected an intercept"),
    }
}

#[test]
fn solver_is_idempotent() {
    // A pure function of its arguments: two identical calls agree.
    let dp = v(123_456, -654_321);
    let dv = v(-45_000, 90_000);
    let first = intercept_time(dp, dv, 1_000_000);
    let second = intercept_time(dp, dv, 1_000_000);
    assert_eq!(first, second);
    let third = intercept_time(dp, dv, 1_000_000);
    assert_eq!(second, third);
}
