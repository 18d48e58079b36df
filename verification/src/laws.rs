//! The general laws of the integrator, stated and proved once for all
//! inputs.

use vstd::prelude::*;
use vstd::arithmetic::mul::lemma_mul_inequality;
use vstd::arithmetic::mul::lemma_mul_is_commutative;
use crate::fixed::SCALE;
use crate::fixed::sfx_mul;
use crate::fixed::lemma_tdiv_ordered;
use crate::vec3::V3;
use crate::spring::DT_MAX;
use crate::spring::SemiImplicitEulerConstraint;
use crate::spring::accel_of;
use crate::spring::integrate_spec;
use crate::spring::k1_of;
use crate::spring::k2_of;
use crate::spring::k2_stable_of;
use crate::spring::k3_of;
use crate::spring::lemma_constants_bounded;
use crate::spring::lemma_k2_stable_bounds;
use crate::spring::params_valid;
use crate::spring::pos_step;
use crate::spring::vel_step;

verus! {

/// A tick with `dt == 0` is the identity on the follower's state: for
/// any instance, any target position and any target velocity, the
/// position and velocity after the tick are the ones before it.
pub proof fn lemma_zero_dt_is_identity(c: SemiImplicitEulerConstraint, tp: V3, direct: Option<V3>)
    ensures
        integrate_spec(c, 0, tp, direct).0.current_pos == c.current_pos,
        integrate_spec(c, 0, tp, direct).0.current_vel == c.current_vel,
{
    assert(forall|pos: int, vel: int| pos_step(pos, 0, vel) == pos);
    assert(forall|vel: int, accel: int| vel_step(vel, 0, accel) == vel);
}

/// The stability floor only ever raises the divisor: for any valid
/// tuning and any time step, the stabilized `k2` is at least `k2`, and
/// strictly positive, so the step never divides by zero or by a
/// negative number.
pub proof fn lemma_k2_stable_dominates(frequency: int, damping: int, response: int, dt: int)
    requires
        params_valid(frequency, damping, response),
        0 <= dt <= DT_MAX,
    ensures
        k2_stable_of(k2_of(frequency), dt, k1_of(damping, frequency)) >= k2_of(frequency),
        k2_stable_of(k2_of(frequency), dt, k1_of(damping, frequency)) > 0,
{
    lemma_constants_bounded(frequency, damping, response);
    lemma_k2_stable_bounds(k2_of(frequency), dt, k1_of(damping, frequency));
}

/// Constant derivation is a pure function: equal tuning parameters
/// give equal spring constants, on any two occasions.
pub proof fn lemma_constant_derivation_pure(
    f1: int, z1: int, r1: int, f2: int, z2: int, r2: int,
)
    requires
        f1 == f2,
        z1 == z2,
        r1 == r2,
    ensures
        k1_of(z1, f1) == k1_of(z2, f2),
        k2_of(f1) == k2_of(f2),
        k3_of(r1, z1, f1) == k3_of(r2, z2, f2),
{
}

/// A larger response anticipates at least as hard: while the target
/// moves forward, raising `k3` never lowers the velocity one tick
/// produces, all other inputs equal.
pub proof fn lemma_anticipation_monotone(
    tp: int, tv: int, pos: int, vel: int, k1: int, k3a: int, k3b: int, k2s: int, dt: int,
)
    requires
        0 <= tv,
        k3a <= k3b,
        1 <= k2s,
        0 <= dt,
    ensures
        vel_step(vel, dt, accel_of(tp, tv, pos, vel, k1, k3a, k2s))
            <= vel_step(vel, dt, accel_of(tp, tv, pos, vel, k1, k3b, k2s)),
{
    lemma_mul_inequality(k3a, k3b, tv);
    lemma_tdiv_ordered(k3a * tv, k3b * tv, SCALE as int);
    let da = tp + sfx_mul(k3a, tv) - pos - sfx_mul(k1, vel);
    let db = tp + sfx_mul(k3b, tv) - pos - sfx_mul(k1, vel);
    lemma_mul_inequality(da, db, SCALE as int);
    lemma_tdiv_ordered(da * SCALE, db * SCALE, k2s);
    let aa = accel_of(tp, tv, pos, vel, k1, k3a, k2s);
    let ab = accel_of(tp, tv, pos, vel, k1, k3b, k2s);
    lemma_mul_inequality(aa, ab, dt);
    lemma_mul_is_commutative(aa, dt);
    lemma_mul_is_commutative(ab, dt);
    lemma_tdiv_ordered(dt * aa, dt * ab, SCALE as int);
}

/// Rest at the target is a fixed point of the step: a follower sitting
/// on a still target with no velocity feels no acceleration and does
/// not move, for any valid divisor and any time step.
pub proof fn lemma_equilibrium_is_fixed(tp: int, k1: int, k3: int, k2s: int, dt: int)
    requires
        1 <= k2s,
    ensures
        accel_of(tp, 0, tp, 0, k1, k3, k2s) == 0,
        pos_step(tp, dt, 0) == tp,
        vel_step(0, dt, accel_of(tp, 0, tp, 0, k1, k3, k2s)) == 0,
{
    assert(k3 * 0 == 0);
    assert(k1 * 0 == 0);
    vstd::arithmetic::div_mod::lemma_div_basics(SCALE as int);
    vstd::arithmetic::div_mod::lemma_div_basics(k2s);
    assert(accel_of(tp, 0, tp, 0, k1, k3, k2s) == 0);
    assert(dt * 0 == 0);
}

} // verus!
