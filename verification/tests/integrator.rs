use sie_spring::spring::derive_constants;
use sie_spring::spring::fd_axis;
use sie_spring::spring::k2_stabilized;
use sie_spring::spring::ConfigError;
use sie_spring::spring::SemiImplicitEulerConstraint;
use sie_spring::spring::TickStatus;
use sie_spring::spring::COORD_LIM;
use sie_spring::spring::DT_MAX;
use sie_spring::vec3::V3;

const TICK_60HZ: i64 = 16_666;
const ONE_SECOND: i64 = 1_000_000;

#[test]
fn default_constants_exact() {
    // frequency 1, damping 0.5, response 2, in raw millionths.
    let (k1, k2, k3) = derive_constants(1_000_000, 500_000, 2_000_000);
    // k1 = 0.5 / pi, k2 = 1 / (2 pi)^2, k3 = 2 * 0.5 / (2 pi), truncated.
    assert_eq!(k1, 159_154);
    assert_eq!(k2, 25_330);
    assert_eq!(k3, 159_154);
}

#[test]
fn constant_derivation_is_pure() {
    let a = derive_constants(2_500_000, 750_000, -1_000_000);
    let b = derive_constants(2_500_000, 750_000, -1_000_000);
    assert_eq!(a, b);
}

#[test]
fn stabilization_keeps_k2_at_small_steps() {
    let (k1, k2, _) = derive_constants(1_000_000, 500_000, 2_000_000);
    // At 1/60 s the floor is far below k2.
    assert_eq!(k2_stabilized(k2, k1, TICK_60HZ), k2);
    // At dt = 0 the floor is zero, so k2 itself is used.
    assert_eq!(k2_stabilized(k2, k1, 0), k2);
}

#[test]
fn stabilization_floors_large_steps() {
    let (k1, k2, _) = derive_constants(1_000_000, 500_000, 2_000_000);
    // At a one-second step the floor 1.1 * (dt^2/4 + dt*k1/2) wins.
    let stable = k2_stabilized(k2, k1, ONE_SECOND);
    assert_eq!(stable, 362_534);
    assert!(stable >= k2);
    assert!(stable > 0);
}

#[test]
fn stabilized_divisor_never_below_k2() {
    for dt in [0i64, 1, 1_000, TICK_60HZ, ONE_SECOND, DT_MAX] {
        let (k1, k2, _) = derive_constants(3_000_000, 1_200_000, 500_000);
        let stable = k2_stabilized(k2, k1, dt);
        assert!(stable >= k2);
        assert!(stable > 0);
    }
}

#[test]
fn zero_dt_tick_is_identity() {
    let mut c = SemiImplicitEulerConstraint::from_target(7);
    c.current_pos = V3::new(123_456, -789, 42);
    c.current_vel = V3::new(-1_000, 2_000, 0);
    let before = c;
    let status = c.integrate(0, V3::new(5_000_000, 0, 0), None);
    assert_eq!(status, TickStatus::Advanced);
    assert_eq!(c.current_pos, before.current_pos);
    assert_eq!(c.current_vel, before.current_vel);
}

#[test]
fn finite_difference_is_exact() {
    // Target positions 0, 1, 2 sampled one second apart: the second
    // and third differences are exactly one unit per second.
    assert_eq!(fd_axis(0, 0, ONE_SECOND), 0);
    assert_eq!(fd_axis(1_000_000, 0, ONE_SECOND), 1_000_000);
    assert_eq!(fd_axis(2_000_000, 1_000_000, ONE_SECOND), 1_000_000);
}

#[test]
fn finite_difference_zero_dt_gives_zero() {
    assert_eq!(fd_axis(42_000_000, 0, 0), 0);
}

#[test]
fn finite_difference_updates_previous_target() {
    let mut c = SemiImplicitEulerConstraint::from_target(1);
    let s1 = c.integrate(ONE_SECOND, V3::new(0, 0, 0), None);
    assert_eq!(s1, TickStatus::Advanced);
    assert_eq!(c.prev_target_pos, V3::new(0, 0, 0));
    let s2 = c.integrate(ONE_SECOND, V3::new(1_000_000, 0, 0), None);
    assert_eq!(s2, TickStatus::Advanced);
    assert_eq!(c.prev_target_pos, V3::new(1_000_000, 0, 0));
    let s3 = c.integrate(ONE_SECOND, V3::new(2_000_000, 0, 0), None);
    assert_eq!(s3, TickStatus::Advanced);
    assert_eq!(c.prev_target_pos, V3::new(2_000_000, 0, 0));
}

#[test]
fn direct_velocity_leaves_previous_target_alone() {
    let mut c = SemiImplicitEulerConstraint::from_target(1);
    c.prev_target_pos = V3::new(9, 9, 9);
    let s = c.integrate(TICK_60HZ, V3::new(1_000_000, 0, 0), Some(V3::new(0, 0, 0)));
    assert_eq!(s, TickStatus::Advanced);
    assert_eq!(c.prev_target_pos, V3::new(9, 9, 9));
}

#[test]
fn converges_to_still_target() {
    // A still target with zero velocity: after enough ticks at 60 Hz
    // the follower sits on the target to within one thousandth.
    let target = V3::new(1_000_000, -3_000_000, 250_000);
    let mut c = SemiImplicitEulerConstraint::from_target(1);
    for _ in 0..2_000 {
        let s = c.integrate(TICK_60HZ, target, Some(V3::new(0, 0, 0)));
        assert_eq!(s, TickStatus::Advanced);
    }
    assert!((c.current_pos.x - target.x).abs() <= 1_000);
    assert!((c.current_pos.y - target.y).abs() <= 1_000);
    assert!((c.current_pos.z - target.z).abs() <= 1_000);
}

#[test]
fn positive_response_anticipates() {
    // The target steps one unit forward; its velocity is estimated by
    // finite difference.  With response 2 the first tick's velocity
    // exceeds the one with response 0; with response 0 the follower
    // does not move at all on the first tick.
    let step_target = V3::new(1_000_000, 0, 0);
    let mut eager = SemiImplicitEulerConstraint::from_target(1);
    let mut plain = SemiImplicitEulerConstraint::with_tuning(1, 1_000_000, 500_000, 0).unwrap();
    assert_eq!(eager.integrate(TICK_60HZ, step_target, None), TickStatus::Advanced);
    assert_eq!(plain.integrate(TICK_60HZ, step_target, None), TickStatus::Advanced);
    assert_eq!(eager.current_pos, V3::new(0, 0, 0));
    assert_eq!(plain.current_pos, V3::new(0, 0, 0));
    assert!(plain.current_vel.x > 0);
    assert!(eager.current_vel.x > plain.current_vel.x);
}

#[test]
fn rejects_non_positive_frequency() {
    assert_eq!(
        SemiImplicitEulerConstraint::with_tuning(1, 0, 500_000, 0).unwrap_err(),
        ConfigError::FrequencyOutOfRange,
    );
    assert_eq!(
        SemiImplicitEulerConstraint::with_tuning(1, -1_000_000, 500_000, 0).unwrap_err(),
        ConfigError::FrequencyOutOfRange,
    );
}

#[test]
fn rejects_out_of_range_damping_and_response() {
    assert_eq!(
        SemiImplicitEulerConstraint::with_tuning(1, 1_000_000, -1, 0).unwrap_err(),
        ConfigError::DampingOutOfRange,
    );
    assert_eq!(
        SemiImplicitEulerConstraint::with_tuning(1, 1_000_000, 500_000, 200_000_000).unwrap_err(),
        ConfigError::ResponseOutOfRange,
    );
}

#[test]
fn accepts_valid_tuning() {
    let c = SemiImplicitEulerConstraint::with_tuning(9, 2_000_000, 0, -1_500_000).unwrap();
    assert_eq!(c.target, 9);
    assert_eq!(c.frequency, 2_000_000);
    assert_eq!(c.damping, 0);
    assert_eq!(c.response, -1_500_000);
    assert_eq!(c.current_pos, V3::new(0, 0, 0));
    assert_eq!(c.current_vel, V3::new(0, 0, 0));
}

#[test]
fn out_of_range_step_leaves_state_untouched() {
    // Follower at the edge of the working range, flying outward at the
    // largest velocity, over the largest time step: the new position
    // would leave the range, so the tick reports instead of moving.
    let mut c = SemiImplicitEulerConstraint::from_target(1);
    c.current_pos = V3::new(COORD_LIM, 0, 0);
    c.current_vel = V3::new(COORD_LIM, 0, 0);
    let before = c;
    let status = c.integrate(DT_MAX, V3::new(0, 0, 0), Some(V3::new(0, 0, 0)));
    assert_eq!(status, TickStatus::OutOfRange);
    assert_eq!(c, before);
}

#[test]
fn live_tuning_validates_like_construction() {
    let mut c = SemiImplicitEulerConstraint::from_target(1);
    assert_eq!(c.set_tuning(0, 0, 0).unwrap_err(), ConfigError::FrequencyOutOfRange);
    assert_eq!(c.frequency, 1_000_000);
    c.set_tuning(2_000_000, 100_000, -500_000).unwrap();
    assert_eq!(c.frequency, 2_000_000);
    assert_eq!(c.damping, 100_000);
    assert_eq!(c.response, -500_000);
}

#[test]
fn retarget_resets_previous_target_position() {
    let mut c = SemiImplicitEulerConstraint::from_target(1);
    c.prev_target_pos = V3::new(7, 7, 7);
    c.retarget(2, V3::new(100, 200, 300));
    assert_eq!(c.target, 2);
    assert_eq!(c.prev_target_pos, V3::new(100, 200, 300));
}
