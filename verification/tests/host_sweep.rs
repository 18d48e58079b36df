use sie_spring::spring::SemiImplicitEulerConstraint;
use sie_spring::spring::TickStatus;
use sie_spring::sweep::pos_from_sie_constraints;
use sie_spring::sweep::update_sie_constraints;
use sie_spring::sweep::TargetSample;
use sie_spring::vec3::V3;

const TICK_60HZ: i64 = 16_666;

#[test]
fn missing_target_is_reported_not_fatal() {
    // One instance resolves, one does not: the second is reported and
    // left untouched, and the first still advances.
    let mut cs = vec![
        SemiImplicitEulerConstraint::from_target(1),
        SemiImplicitEulerConstraint::from_target(99),
    ];
    let orphan_before = cs[1];
    let targets = vec![TargetSample {
        id: 1,
        pos: V3::new(1_000_000, 0, 0),
        vel: Some(V3::new(0, 0, 0)),
    }];
    let statuses = update_sie_constraints(&mut cs, TICK_60HZ, &targets);
    assert_eq!(statuses, vec![TickStatus::Advanced, TickStatus::MissingTarget]);
    assert_eq!(cs[1], orphan_before);
    assert!(cs[0].current_vel.x > 0);
}

#[test]
fn sweep_matches_single_integrate() {
    let mut cs = vec![SemiImplicitEulerConstraint::from_target(5)];
    let mut alone = cs[0];
    let targets = vec![TargetSample {
        id: 5,
        pos: V3::new(-2_000_000, 500_000, 0),
        vel: None,
    }];
    let statuses = update_sie_constraints(&mut cs, TICK_60HZ, &targets);
    let status = alone.integrate(TICK_60HZ, V3::new(-2_000_000, 500_000, 0), None);
    assert_eq!(statuses, vec![status]);
    assert_eq!(cs[0], alone);
}

#[test]
fn sweep_instances_are_independent() {
    // Two followers of the same target advance to the same state as
    // each would alone, in either order of appearance.
    let targets = vec![
        TargetSample { id: 2, pos: V3::new(300_000, 0, 0), vel: None },
        TargetSample { id: 3, pos: V3::new(0, -300_000, 0), vel: Some(V3::new(0, 0, 0)) },
    ];
    let mut cs = vec![
        SemiImplicitEulerConstraint::from_target(2),
        SemiImplicitEulerConstraint::from_target(3),
        SemiImplicitEulerConstraint::from_target(2),
    ];
    let statuses = update_sie_constraints(&mut cs, TICK_60HZ, &targets);
    assert_eq!(statuses, vec![TickStatus::Advanced; 3]);
    assert_eq!(cs[0], cs[2]);
}

#[test]
fn positions_read_out_in_order() {
    let mut a = SemiImplicitEulerConstraint::from_target(1);
    a.current_pos = V3::new(1, 2, 3);
    let mut b = SemiImplicitEulerConstraint::from_target(2);
    b.current_pos = V3::new(-4, 5, -6);
    let cs = vec![a, b];
    let ps = pos_from_sie_constraints(&cs);
    assert_eq!(ps, vec![V3::new(1, 2, 3), V3::new(-4, 5, -6)]);
}
