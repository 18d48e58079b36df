//! The stabilized semi-implicit Euler spring step.
//!
//! Tuning parameters are converted into the three spring constants
//!
//! ```text
//! k1 = damping / (pi * frequency)
//! k2 = 1 / (2 * pi * frequency)^2
//! k3 = response * damping / (2 * pi * frequency)
//! ```
//!
//! the divisor `k2` is floored at `1.1 * (dt^2/4 + dt*k1/2)` for the
//! current tick so the step cannot diverge at large time steps, and the
//! follower advances by
//!
//! ```text
//! accel   = (target_pos + k3*target_vel - pos - k1*vel) / k2_stable
//! new_vel = vel + dt * accel
//! new_pos = pos + dt * vel
//! ```
//!
//! where `pos` and `vel` are the values the tick started with.
//! All scalars are fixed-point with `SCALE` raw units per unit, and every
//! product or quotient truncates toward zero.

use vstd::prelude::*;
use crate::fixed::SCALE;
use crate::fixed::tdiv;
use crate::fixed::sfx_mul;
use crate::fixed::sfx_div;
use crate::fixed::lemma_div_frac_bound;
use crate::fixed::lemma_tdiv_frac_bound;
use crate::fixed::lemma_tdiv_ordered;
use crate::fixed::lemma_mul_abs_bound;
use crate::fixed::mul_wide;
use crate::fixed::tdiv_wide;
use crate::vec3::V3;

verus! {

/// Pi in raw fixed-point units.
pub const PI_RAW: i64 = 3_141_593;

/// Two pi in raw fixed-point units.
pub const TWO_PI_RAW: i64 = 6_283_185;

/// Smallest accepted frequency, in raw units: one thousandth of a hertz.
pub const FREQ_MIN: i64 = 1_000;

/// Largest accepted frequency, in raw units: one hundred hertz.  Above
/// this the raw `k2` would truncate to zero and the step would divide
/// by zero.
pub const FREQ_MAX: i64 = 100_000_000;

/// Largest accepted damping, in raw units: one hundred.
pub const DAMP_MAX: i64 = 100_000_000;

/// Largest accepted response magnitude, in raw units: one hundred.
pub const RESP_MAX: i64 = 100_000_000;

/// Largest coordinate magnitude a follower or target may hold, in raw
/// units: one million distance units.
pub const COORD_LIM: i64 = 1_000_000_000_000;

/// Largest accepted time step, in raw units: one thousand seconds.
pub const DT_MAX: i64 = 1_000_000_000;

/// Largest acceleration the step accepts before it reports the tick as
/// out of range instead of advancing.
pub const ACCEL_LIM: i128 = 10_000_000_000_000_000_000_000_000_000;

/// Upper bound on `k1` for valid parameters.
pub const K1_LIM: i64 = 40_000_000_000;

/// Upper bound on `k2` for valid parameters.
pub const K2_LIM: i64 = 30_000_000_000;

/// Upper bound on the magnitude of `k3` for valid parameters.
pub const K3_LIM: i64 = 2_000_000_000_000;

/// Upper bound on the stabilized `k2` for valid parameters and time steps.
pub const K2S_LIM: i64 = 30_000_000_000_000;

/// Default frequency: one hertz.
pub const DEFAULT_FREQUENCY: i64 = 1_000_000;

/// Default damping: one half.
pub const DEFAULT_DAMPING: i64 = 500_000;

/// Default response: two.
pub const DEFAULT_RESPONSE: i64 = 2_000_000;

/// The tuning parameters the integrator accepts: a strictly positive
/// frequency small enough that `k2` keeps at least one raw unit, and
/// damping and response within the fixed-point working range.
pub open spec fn params_valid(frequency: int, damping: int, response: int) -> bool {
    &&& FREQ_MIN <= frequency <= FREQ_MAX
    &&& 0 <= damping <= DAMP_MAX
    &&& -RESP_MAX <= response <= RESP_MAX
}

/// A coordinate within the working range.
pub open spec fn coord_ok(c: int) -> bool {
    -COORD_LIM <= c <= COORD_LIM
}

/// All three coordinates within the working range.
pub open spec fn v3_ok(v: V3) -> bool {
    coord_ok(v.x as int) && coord_ok(v.y as int) && coord_ok(v.z as int)
}

/// `pi * frequency`, in raw units.
pub open spec fn pi_freq(frequency: int) -> int {
    sfx_mul(PI_RAW as int, frequency)
}

/// The angular frequency `2 * pi * frequency`, in raw units.
pub open spec fn omega(frequency: int) -> int {
    sfx_mul(TWO_PI_RAW as int, frequency)
}

/// `k1 = damping / (pi * frequency)`.
pub open spec fn k1_of(damping: int, frequency: int) -> int {
    sfx_div(damping, pi_freq(frequency))
}

/// `k2 = 1 / (2 * pi * frequency)^2`.
pub open spec fn k2_of(frequency: int) -> int {
    sfx_div(SCALE as int, sfx_mul(omega(frequency), omega(frequency)))
}

/// `k3 = response * damping / (2 * pi * frequency)`.
pub open spec fn k3_of(response: int, damping: int, frequency: int) -> int {
    sfx_div(sfx_mul(response, damping), omega(frequency))
}

/// The stability floor `1.1 * (dt^2/4 + dt*k1/2)`, in raw units.
pub open spec fn stability_floor(dt: int, k1: int) -> int {
    tdiv(11 * (tdiv(dt * dt, 4 * SCALE) + tdiv(dt * k1, 2 * SCALE)), 10)
}

/// The divisor used for the current tick: `max(k2, stability_floor)`.
pub open spec fn k2_stable_of(k2: int, dt: int, k1: int) -> int {
    let floor = stability_floor(dt, k1);
    if floor > k2 {
        floor
    } else {
        k2
    }
}

/// Backward finite difference `(target - previous) / dt` for one
/// coordinate, zero when no time has passed.
pub open spec fn fd_velocity(target_c: int, prev_c: int, dt: int) -> int {
    if dt == 0 {
        0
    } else {
        tdiv((target_c - prev_c) * SCALE, dt)
    }
}

/// The spring acceleration
/// `(target_pos + k3*target_vel - pos - k1*vel) / k2_stable`
/// for one coordinate.
pub open spec fn accel_of(tp: int, tv: int, pos: int, vel: int, k1: int, k3: int, k2s: int) -> int {
    tdiv((tp + sfx_mul(k3, tv) - pos - sfx_mul(k1, vel)) * SCALE, k2s)
}

/// The velocity after one tick: `vel + dt * accel`.
pub open spec fn vel_step(vel: int, dt: int, accel: int) -> int {
    vel + tdiv(dt * accel, SCALE as int)
}

/// The position after one tick: `pos + dt * vel`, with `vel` the
/// velocity the tick started with.
pub open spec fn pos_step(pos: int, dt: int, vel: int) -> int {
    pos + tdiv(dt * vel, SCALE as int)
}

/// For valid parameters the spring constants stay in fixed bounds, and
/// in particular `k2` keeps at least one raw unit, so it can never be a
/// zero divisor.
pub proof fn lemma_constants_bounded(frequency: int, damping: int, response: int)
    requires
        params_valid(frequency, damping, response),
    ensures
        3_141 <= pi_freq(frequency) <= 314_159_300_000,
        6_283 <= omega(frequency) <= 628_318_500,
        0 <= k1_of(damping, frequency) <= K1_LIM,
        39 <= sfx_mul(omega(frequency), omega(frequency)) <= 394_784_176_023,
        1 <= k2_of(frequency) <= K2_LIM,
        -10_000_000_000 <= sfx_mul(response, damping) <= 10_000_000_000,
        -K3_LIM <= k3_of(response, damping, frequency) <= K3_LIM,
{
    let pf_n = PI_RAW * frequency;
    assert(3_141_593_000 <= 3_141_593 * frequency <= 314_159_300_000_000) by (nonlinear_arith)
        requires
            1_000 <= frequency <= 100_000_000;
    assert(pf_n == 3_141_593 * frequency);
    lemma_div_frac_bound(pf_n, SCALE as int, 314_159_300_000_000, SCALE as int);
    lemma_tdiv_ordered(3_141_593_000, pf_n, SCALE as int);
    assert(pi_freq(frequency) >= 3_141);

    let om_n = TWO_PI_RAW * frequency;
    assert(6_283_185_000 <= 6_283_185 * frequency <= 628_318_500_000_000) by (nonlinear_arith)
        requires
            1_000 <= frequency <= 100_000_000;
    assert(om_n == 6_283_185 * frequency);
    lemma_div_frac_bound(om_n, SCALE as int, 628_318_500_000_000, SCALE as int);
    lemma_tdiv_ordered(6_283_185_000, om_n, SCALE as int);
    let om = omega(frequency);
    assert(6_283 <= om <= 628_318_500);

    // k1 = damping * SCALE / pi_freq
    let k1_n = damping * SCALE;
    assert(0 <= damping * 1_000_000 <= 100_000_000_000_000) by (nonlinear_arith)
        requires
            0 <= damping <= 100_000_000;
    assert(k1_n == damping * 1_000_000);
    lemma_tdiv_frac_bound(k1_n, pi_freq(frequency), 100_000_000_000_000, 3_141);
    assert(k1_of(damping, frequency) <= K1_LIM);
    lemma_div_frac_bound(k1_n, pi_freq(frequency), 100_000_000_000_000, 3_141);

    // omega squared, then k2 = SCALE * SCALE / omega^2
    let om2_n = om * om;
    assert(39_476_089 <= om * om <= 394_784_176_022_250_000) by (nonlinear_arith)
        requires
            6_283 <= om <= 628_318_500;
    assert(om2_n == om * om);
    lemma_div_frac_bound(om2_n, SCALE as int, 394_784_176_022_250_000, SCALE as int);
    lemma_tdiv_ordered(39_476_089, om2_n, SCALE as int);
    let om2 = sfx_mul(om, om);
    assert(39 <= om2 <= 394_784_176_023);
    lemma_div_frac_bound(SCALE as int * SCALE as int, om2, 1_000_000_000_000, 39);
    lemma_tdiv_ordered(394_784_176_023, SCALE as int * SCALE as int, om2);
    lemma_div_frac_bound(394_784_176_023, om2, 394_784_176_023, 39);
    assert(k2_of(frequency) >= tdiv(394_784_176_023int, om2));
    assert(tdiv(394_784_176_023int, om2) >= 1) by {
        lemma_tdiv_ordered(om2, 394_784_176_023, om2);
        assert(om2 / om2 == 1) by {
            vstd::arithmetic::div_mod::lemma_div_by_self(om2);
        }
    }
    assert(k2_of(frequency) <= K2_LIM);

    // k3 = (response * damping / SCALE) * SCALE / omega
    lemma_mul_abs_bound(response, damping, 100_000_000, 100_000_000);
    lemma_tdiv_frac_bound(response * damping, SCALE as int, 10_000_000_000_000_000, SCALE as int);
    let rz = sfx_mul(response, damping);
    assert(-10_000_000_000 <= rz <= 10_000_000_000);
    lemma_mul_abs_bound(rz, SCALE as int, 10_000_000_000, SCALE as int);
    lemma_tdiv_frac_bound(rz * SCALE, om, 10_000_000_000_000_000, 6_283);
    assert(-K3_LIM <= k3_of(response, damping, frequency) <= K3_LIM);
}

/// For valid inputs the stabilized divisor keeps at least one raw unit
/// and stays in a fixed bound.
pub proof fn lemma_k2_stable_bounds(k2: int, dt: int, k1: int)
    requires
        1 <= k2 <= K2_LIM,
        0 <= dt <= DT_MAX,
        0 <= k1 <= K1_LIM,
    ensures
        k2 <= k2_stable_of(k2, dt, k1),
        1 <= k2_stable_of(k2, dt, k1) <= K2S_LIM,
        0 <= stability_floor(dt, k1),
{
    lemma_mul_abs_bound(dt, dt, DT_MAX as int, DT_MAX as int);
    lemma_tdiv_frac_bound(dt * dt, 4 * SCALE, 1_000_000_000_000_000_000, 4_000_000);
    assert(dt * dt >= 0) by (nonlinear_arith);
    lemma_div_frac_bound(dt * dt, 4 * SCALE, 1_000_000_000_000_000_000, 4_000_000);
    lemma_mul_abs_bound(dt, k1, DT_MAX as int, K1_LIM as int);
    assert(dt * k1 >= 0) by (nonlinear_arith)
        requires
            dt >= 0,
            k1 >= 0;
    lemma_div_frac_bound(dt * k1, 2 * SCALE, 40_000_000_000_000_000_000, 2_000_000);
    let s = tdiv(dt * dt, 4 * SCALE) + tdiv(dt * k1, 2 * SCALE);
    assert(0 <= s <= 20_250_000_000_000);
    lemma_div_frac_bound(11 * s, 10, 222_750_000_000_000, 10);
    assert(0 <= stability_floor(dt, k1) <= 22_275_000_000_000);
}

/// Computes the three spring constants from the tuning parameters.
/// The result is a pure function of the inputs: two calls with the
/// same parameters return the same raw values.
pub fn derive_constants(frequency: i64, damping: i64, response: i64) -> (ks: (i64, i64, i64))
    requires
        params_valid(frequency as int, damping as int, response as int),
    ensures
        ks.0 == k1_of(damping as int, frequency as int),
        ks.1 == k2_of(frequency as int),
        ks.2 == k3_of(response as int, damping as int, frequency as int),
        0 <= ks.0 <= K1_LIM,
        1 <= ks.1 <= K2_LIM,
        -K3_LIM <= ks.2 <= K3_LIM,
{
    proof {
        lemma_constants_bounded(frequency as int, damping as int, response as int);
    }
    let pf: i128 = tdiv_wide(mul_wide(PI_RAW, frequency), SCALE as i128);
    let om: i128 = tdiv_wide(mul_wide(TWO_PI_RAW, frequency), SCALE as i128);
    let k1: i128 = tdiv_wide(mul_wide(damping, SCALE), pf);

    proof {
        lemma_mul_abs_bound(om as int, om as int, 628_318_500, 628_318_500);
    }
    let om2: i128 = tdiv_wide(om * om, SCALE as i128);
    let k2: i128 = tdiv_wide(1_000_000_000_000i128, om2);

    proof {
        lemma_mul_abs_bound(response as int, damping as int, RESP_MAX as int, DAMP_MAX as int);
    }
    let rz: i128 = tdiv_wide(mul_wide(response, damping), SCALE as i128);
    proof {
        lemma_mul_abs_bound(rz as int, SCALE as int, 10_000_000_000, SCALE as int);
    }
    let k3: i128 = tdiv_wide(rz * (SCALE as i128), om);

    (k1 as i64, k2 as i64, k3 as i64)
}

/// Computes the divisor for the current tick: `k2`, floored at
/// `1.1 * (dt^2/4 + dt*k1/2)` so a large time step cannot make the
/// integrator diverge.  The result never drops below `k2`, and never
/// below one raw unit.
pub fn k2_stabilized(k2: i64, k1: i64, dt: i64) -> (r: i64)
    requires
        1 <= k2 <= K2_LIM,
        0 <= k1 <= K1_LIM,
        0 <= dt <= DT_MAX,
    ensures
        r == k2_stable_of(k2 as int, dt as int, k1 as int),
        k2 <= r,
        1 <= r <= K2S_LIM,
{
    proof {
        lemma_k2_stable_bounds(k2 as int, dt as int, k1 as int);
        lemma_mul_abs_bound(dt as int, dt as int, DT_MAX as int, DT_MAX as int);
        lemma_mul_abs_bound(dt as int, k1 as int, DT_MAX as int, K1_LIM as int);
        lemma_tdiv_frac_bound(dt as int * dt as int, 4 * SCALE as int, 1_000_000_000_000_000_000, 4_000_000);
        lemma_tdiv_frac_bound(dt as int * k1 as int, 2 * SCALE as int, 40_000_000_000_000_000_000, 2_000_000);
    }
    let q1: i128 = tdiv_wide(mul_wide(dt, dt), 4 * SCALE as i128);
    let q2: i128 = tdiv_wide(mul_wide(dt, k1), 2 * SCALE as i128);
    let floor: i128 = tdiv_wide(11 * (q1 + q2), 10);
    proof {
        lemma_tdiv_frac_bound(11 * (q1 as int + q2 as int), 10, 222_750_000_000_000_000_000, 10);
    }
    if floor > k2 as i128 {
        floor as i64
    } else {
        k2
    }
}

/// Estimates one coordinate of the target's velocity by backward
/// finite difference against the last observed position; zero when no
/// time has passed.
pub fn fd_axis(target_c: i64, prev_c: i64, dt: i64) -> (r: i64)
    requires
        coord_ok(target_c as int),
        coord_ok(prev_c as int),
        0 <= dt <= DT_MAX,
    ensures
        r == fd_velocity(target_c as int, prev_c as int, dt as int),
        -2_000_000_000_000_000_000 <= r <= 2_000_000_000_000_000_000,
{
    if dt == 0 {
        0
    } else {
        let d: i64 = target_c - prev_c;
        proof {
            lemma_mul_abs_bound(d as int, SCALE as int, 2 * COORD_LIM as int, SCALE as int);
            lemma_tdiv_frac_bound(d as int * SCALE as int, dt as int, 2_000_000_000_000_000_000, 1);
            vstd::arithmetic::div_mod::lemma_div_basics(2_000_000_000_000_000_000);
        }
        let v: i128 = tdiv_wide(mul_wide(d, SCALE), dt as i128);
        v as i64
    }
}

/// One coordinate may advance this tick: neither the acceleration nor
/// the new position or velocity leaves the working range.
pub open spec fn axis_ok(tp: int, tv: int, pos: int, vel: int, k1: int, k3: int, k2s: int, dt: int) -> bool {
    &&& -ACCEL_LIM <= accel_of(tp, tv, pos, vel, k1, k3, k2s) <= ACCEL_LIM
    &&& coord_ok(pos_step(pos, dt, vel))
    &&& coord_ok(vel_step(vel, dt, accel_of(tp, tv, pos, vel, k1, k3, k2s)))
}

/// Advances one coordinate by a stabilized semi-implicit Euler step:
/// the position moves by the velocity the tick started with, and the
/// velocity by the spring acceleration.  Returns the new position and
/// velocity, or nothing exactly when the step would leave the working
/// range.
pub fn integrate_axis(tp: i64, tv: i64, pos: i64, vel: i64, k1: i64, k3: i64, k2s: i64, dt: i64)
    -> (r: Option<(i64, i64)>)
    requires
        coord_ok(tp as int),
        coord_ok(pos as int),
        coord_ok(vel as int),
        0 <= k1 <= K1_LIM,
        -K3_LIM <= k3 <= K3_LIM,
        1 <= k2s <= K2S_LIM,
        0 <= dt <= DT_MAX,
    ensures
        match r {
            Some(pv) => {
                &&& axis_ok(tp as int, tv as int, pos as int, vel as int, k1 as int, k3 as int, k2s as int, dt as int)
                &&& pv.0 == pos_step(pos as int, dt as int, vel as int)
                &&& pv.1 == vel_step(vel as int, dt as int,
                        accel_of(tp as int, tv as int, pos as int, vel as int, k1 as int, k3 as int, k2s as int))
            },
            None => !axis_ok(tp as int, tv as int, pos as int, vel as int, k1 as int, k3 as int, k2s as int, dt as int),
        },
{
    // New position, from the velocity the tick started with.
    proof {
        lemma_mul_abs_bound(dt as int, vel as int, DT_MAX as int, COORD_LIM as int);
        lemma_tdiv_frac_bound(dt as int * vel as int, SCALE as int, 1_000_000_000_000_000_000_000, SCALE as int);
    }
    let dp: i128 = tdiv_wide(mul_wide(dt, vel), SCALE as i128);
    let np: i128 = (pos as i128) + dp;

    // Spring acceleration.
    proof {
        lemma_mul_abs_bound(k3 as int, tv as int, K3_LIM as int, 9_223_372_036_854_775_808);
        lemma_tdiv_frac_bound(k3 as int * tv as int, SCALE as int,
            18_446_744_073_709_551_616_000_000_000_000, SCALE as int);
        lemma_mul_abs_bound(k1 as int, vel as int, K1_LIM as int, COORD_LIM as int);
        lemma_tdiv_frac_bound(k1 as int * vel as int, SCALE as int,
            40_000_000_000_000_000_000_000, SCALE as int);
    }
    let tk3: i128 = tdiv_wide(mul_wide(k3, tv), SCALE as i128);
    let tk1: i128 = tdiv_wide(mul_wide(k1, vel), SCALE as i128);
    let diff: i128 = (tp as i128) + tk3 - (pos as i128) - tk1;
    proof {
        lemma_mul_abs_bound(diff as int, SCALE as int, 20_000_000_000_000_000_000_000_000, SCALE as int);
    }
    let accel: i128 = tdiv_wide(diff * (SCALE as i128), k2s as i128);
    if accel < -ACCEL_LIM || accel > ACCEL_LIM {
        return None;
    }

    // New velocity, from the acceleration.
    proof {
        lemma_mul_abs_bound(dt as int, accel as int, DT_MAX as int, ACCEL_LIM as int);
        lemma_tdiv_frac_bound(dt as int * accel as int, SCALE as int,
            10_000_000_000_000_000_000_000_000_000_000_000_000, SCALE as int);
    }
    let dv: i128 = tdiv_wide((dt as i128) * accel, SCALE as i128);
    let nv: i128 = (vel as i128) + dv;

    let lim: i128 = COORD_LIM as i128;
    if np < -lim || np > lim || nv < -lim || nv > lim {
        None
    } else {
        Some((np as i64, nv as i64))
    }
}

/// How a tick ended for one instance.
#[derive(Clone, Copy, Debug, PartialEq, Eq, Structural)]
pub enum TickStatus {
    /// The instance advanced by one integration step.
    Advanced,
    /// The instance's target did not resolve; the instance was left
    /// untouched.
    MissingTarget,
    /// The step would have left the working range; the instance was
    /// left untouched.
    OutOfRange,
}

/// Why a tuning configuration was rejected.
#[derive(Clone, Copy, Debug, PartialEq, Eq, Structural)]
pub enum ConfigError {
    /// The frequency is not strictly positive, or too large for the
    /// fixed-point working range.
    FrequencyOutOfRange,
    /// The damping is negative, or too large for the working range.
    DampingOutOfRange,
    /// The response magnitude is too large for the working range.
    ResponseOutOfRange,
}

/// One spring-follow relationship: a follower point that springs
/// toward the target identified by `target`.
#[derive(Clone, Copy, Debug, PartialEq, Eq, Structural)]
pub struct SemiImplicitEulerConstraint {
    /// The identifier of the entity being followed; resolved by the
    /// host each tick.
    pub target: u64,
    /// The target position observed by the last finite-difference
    /// velocity estimate.
    pub prev_target_pos: V3,
    /// The follower's position, advanced every tick.
    pub current_pos: V3,
    /// The follower's velocity, advanced every tick.
    pub current_vel: V3,
    /// Natural frequency of the spring, in raw units.
    pub frequency: i64,
    /// Damping ratio, in raw units.
    pub damping: i64,
    /// Response shaping factor, in raw units; negative values
    /// anticipate in the opposite direction.
    pub response: i64,
}

/// A shorter name for the constraint.
pub type SieConstraint = SemiImplicitEulerConstraint;

/// The target's velocity used by the step for the `x` coordinate: the
/// directly supplied one when the host has it, otherwise the backward
/// finite difference against the last observed target position.
pub open spec fn tv_x(c: SemiImplicitEulerConstraint, dt: int, tp: V3, direct: Option<V3>) -> int {
    match direct {
        Some(v) => v.x as int,
        None => fd_velocity(tp.x as int, c.prev_target_pos.x as int, dt),
    }
}

/// As `tv_x`, for the `y` coordinate.
pub open spec fn tv_y(c: SemiImplicitEulerConstraint, dt: int, tp: V3, direct: Option<V3>) -> int {
    match direct {
        Some(v) => v.y as int,
        None => fd_velocity(tp.y as int, c.prev_target_pos.y as int, dt),
    }
}

/// As `tv_x`, for the `z` coordinate.
pub open spec fn tv_z(c: SemiImplicitEulerConstraint, dt: int, tp: V3, direct: Option<V3>) -> int {
    match direct {
        Some(v) => v.z as int,
        None => fd_velocity(tp.z as int, c.prev_target_pos.z as int, dt),
    }
}

/// What one tick does to an instance, as a mathematical function: when
/// every coordinate stays in the working range the follower advances by
/// the stabilized semi-implicit Euler step (and, when the target's
/// velocity was derived by finite difference, the observed target
/// position is recorded); otherwise the instance is left untouched.
pub open spec fn integrate_spec(c: SemiImplicitEulerConstraint, dt: int, tp: V3, direct: Option<V3>)
    -> (SemiImplicitEulerConstraint, TickStatus)
{
    let k1 = k1_of(c.damping as int, c.frequency as int);
    let k3 = k3_of(c.response as int, c.damping as int, c.frequency as int);
    let k2s = k2_stable_of(k2_of(c.frequency as int), dt, k1);
    let tvx = tv_x(c, dt, tp, direct);
    let tvy = tv_y(c, dt, tp, direct);
    let tvz = tv_z(c, dt, tp, direct);
    if axis_ok(tp.x as int, tvx, c.current_pos.x as int, c.current_vel.x as int, k1, k3, k2s, dt)
        && axis_ok(tp.y as int, tvy, c.current_pos.y as int, c.current_vel.y as int, k1, k3, k2s, dt)
        && axis_ok(tp.z as int, tvz, c.current_pos.z as int, c.current_vel.z as int, k1, k3, k2s, dt) {
        (SemiImplicitEulerConstraint {
            target: c.target,
            prev_target_pos: (match direct {
                Some(_) => c.prev_target_pos,
                None => tp,
            }),
            current_pos: (V3 {
                x: pos_step(c.current_pos.x as int, dt, c.current_vel.x as int) as i64,
                y: pos_step(c.current_pos.y as int, dt, c.current_vel.y as int) as i64,
                z: pos_step(c.current_pos.z as int, dt, c.current_vel.z as int) as i64,
            }),
            current_vel: (V3 {
                x: vel_step(c.current_vel.x as int, dt,
                    accel_of(tp.x as int, tvx, c.current_pos.x as int, c.current_vel.x as int, k1, k3, k2s)) as i64,
                y: vel_step(c.current_vel.y as int, dt,
                    accel_of(tp.y as int, tvy, c.current_pos.y as int, c.current_vel.y as int, k1, k3, k2s)) as i64,
                z: vel_step(c.current_vel.z as int, dt,
                    accel_of(tp.z as int, tvz, c.current_pos.z as int, c.current_vel.z as int, k1, k3, k2s)) as i64,
            }),
            frequency: c.frequency,
            damping: c.damping,
            response: c.response,
        }, TickStatus::Advanced)
    } else {
        (c, TickStatus::OutOfRange)
    }
}

impl SemiImplicitEulerConstraint {
    /// A well-formed instance: the tuning parameters are valid and the
    /// stored state lies in the working range.
    pub open spec fn wf(self) -> bool {
        &&& params_valid(self.frequency as int, self.damping as int, self.response as int)
        &&& v3_ok(self.current_pos)
        &&& v3_ok(self.current_vel)
        &&& v3_ok(self.prev_target_pos)
    }

    /// A new follower of `target`, at rest at the origin, with the
    /// default tuning: frequency one, damping one half, response two.
    pub fn from_target(target: u64) -> (r: Self)
        ensures
            r.target == target,
            r.prev_target_pos == V3::spec_zero(),
            r.current_pos == V3::spec_zero(),
            r.current_vel == V3::spec_zero(),
            r.frequency == DEFAULT_FREQUENCY,
            r.damping == DEFAULT_DAMPING,
            r.response == DEFAULT_RESPONSE,
            r.wf(),
    {
        SemiImplicitEulerConstraint {
            target,
            prev_target_pos: V3::zero(),
            current_pos: V3::zero(),
            current_vel: V3::zero(),
            frequency: DEFAULT_FREQUENCY,
            damping: DEFAULT_DAMPING,
            response: DEFAULT_RESPONSE,
        }
    }

    /// A new follower of `target` with the given tuning, rejected when
    /// a parameter is out of the accepted range; a frequency that is
    /// zero or negative is always rejected.
    pub fn with_tuning(target: u64, frequency: i64, damping: i64, response: i64)
        -> (r: Result<Self, ConfigError>)
        ensures
            r is Ok <==> params_valid(frequency as int, damping as int, response as int),
            r is Ok ==> {
                let c = r->Ok_0;
                &&& c.target == target
                &&& c.prev_target_pos == V3::spec_zero()
                &&& c.current_pos == V3::spec_zero()
                &&& c.current_vel == V3::spec_zero()
                &&& c.frequency == frequency
                &&& c.damping == damping
                &&& c.response == response
                &&& c.wf()
            },
            !(FREQ_MIN <= frequency <= FREQ_MAX) ==> r == Result::<Self, ConfigError>::Err(ConfigError::FrequencyOutOfRange),
            FREQ_MIN <= frequency <= FREQ_MAX && !(0 <= damping <= DAMP_MAX)
                ==> r == Result::<Self, ConfigError>::Err(ConfigError::DampingOutOfRange),
            FREQ_MIN <= frequency <= FREQ_MAX && 0 <= damping <= DAMP_MAX
                && !(-RESP_MAX <= response <= RESP_MAX)
                ==> r == Result::<Self, ConfigError>::Err(ConfigError::ResponseOutOfRange),
    {
        if frequency < FREQ_MIN || frequency > FREQ_MAX {
            Err(ConfigError::FrequencyOutOfRange)
        } else if damping < 0 || damping > DAMP_MAX {
            Err(ConfigError::DampingOutOfRange)
        } else if response < -RESP_MAX || response > RESP_MAX {
            Err(ConfigError::ResponseOutOfRange)
        } else {
            Ok(SemiImplicitEulerConstraint {
                target,
                prev_target_pos: V3::zero(),
                current_pos: V3::zero(),
                current_vel: V3::zero(),
                frequency,
                damping,
                response,
            })
        }
    }

    /// Changes the tuning of a live instance, rejected exactly as at
    /// construction; on rejection the instance is left untouched.
    pub fn set_tuning(&mut self, frequency: i64, damping: i64, response: i64)
        -> (r: Result<(), ConfigError>)
        ensures
            r is Ok <==> params_valid(frequency as int, damping as int, response as int),
            r is Ok ==> *final(self) == (SemiImplicitEulerConstraint {
                frequency,
                damping,
                response,
                ..*old(self)
            }),
            r is Err ==> *final(self) == *old(self),
            old(self).wf() ==> final(self).wf(),
            !(FREQ_MIN <= frequency <= FREQ_MAX)
                ==> r == Result::<(), ConfigError>::Err(ConfigError::FrequencyOutOfRange),
            FREQ_MIN <= frequency <= FREQ_MAX && !(0 <= damping <= DAMP_MAX)
                ==> r == Result::<(), ConfigError>::Err(ConfigError::DampingOutOfRange),
            FREQ_MIN <= frequency <= FREQ_MAX && 0 <= damping <= DAMP_MAX
                && !(-RESP_MAX <= response <= RESP_MAX)
                ==> r == Result::<(), ConfigError>::Err(ConfigError::ResponseOutOfRange),
    {
        if frequency < FREQ_MIN || frequency > FREQ_MAX {
            Err(ConfigError::FrequencyOutOfRange)
        } else if damping < 0 || damping > DAMP_MAX {
            Err(ConfigError::DampingOutOfRange)
        } else if response < -RESP_MAX || response > RESP_MAX {
            Err(ConfigError::ResponseOutOfRange)
        } else {
            self.frequency = frequency;
            self.damping = damping;
            self.response = response;
            Ok(())
        }
    }

    /// Points this follower at a new target.  The last observed target
    /// position is reset to the new target's position, so the next
    /// finite-difference estimate starts from it instead of from the
    /// old target's last position.
    pub fn retarget(&mut self, target: u64, target_pos: V3)
        ensures
            *final(self) == (SemiImplicitEulerConstraint {
                target,
                prev_target_pos: target_pos,
                ..*old(self)
            }),
            old(self).wf() && v3_ok(target_pos) ==> final(self).wf(),
    {
        self.target = target;
        self.prev_target_pos = target_pos;
    }

    /// Advances this follower by one tick toward `target_pos`,
    /// taking the target's velocity from `target_vel` when the host
    /// supplies it and estimating it by finite difference otherwise.
    /// The instance afterward, and the returned status, are exactly
    /// `integrate_spec` of the instance before; in particular a tick
    /// with `dt == 0` never moves the follower, and a tick reported
    /// out of range leaves the instance untouched.
    pub fn integrate(&mut self, dt: i64, target_pos: V3, target_vel: Option<V3>) -> (r: TickStatus)
        requires
            old(self).wf(),
            0 <= dt <= DT_MAX,
            v3_ok(target_pos),
        ensures
            *final(self) == integrate_spec(*old(self), dt as int, target_pos, target_vel).0,
            r == integrate_spec(*old(self), dt as int, target_pos, target_vel).1,
            final(self).wf(),
            r == TickStatus::Advanced || r == TickStatus::OutOfRange,
            r == TickStatus::OutOfRange ==> *final(self) == *old(self),
            dt == 0 ==> final(self).current_pos == old(self).current_pos
                && final(self).current_vel == old(self).current_vel,
    {
        let c = *self;
        let (k1, k2, k3) = derive_constants(c.frequency, c.damping, c.response);
        let k2s = k2_stabilized(k2, k1, dt);
        let (tvx, tvy, tvz, new_prev) = match target_vel {
            Some(v) => (v.x, v.y, v.z, c.prev_target_pos),
            None => (
                fd_axis(target_pos.x, c.prev_target_pos.x, dt),
                fd_axis(target_pos.y, c.prev_target_pos.y, dt),
                fd_axis(target_pos.z, c.prev_target_pos.z, dt),
                target_pos,
            ),
        };
        let rx = integrate_axis(target_pos.x, tvx, c.current_pos.x, c.current_vel.x, k1, k3, k2s, dt);
        let ry = integrate_axis(target_pos.y, tvy, c.current_pos.y, c.current_vel.y, k1, k3, k2s, dt);
        let rz = integrate_axis(target_pos.z, tvz, c.current_pos.z, c.current_vel.z, k1, k3, k2s, dt);
        match (rx, ry, rz) {
            (Some(px), Some(py), Some(pz)) => {
                self.prev_target_pos = new_prev;
                self.current_pos = V3 { x: px.0, y: py.0, z: pz.0 };
                self.current_vel = V3 { x: px.1, y: py.1, z: pz.1 };
                TickStatus::Advanced
            },
            _ => TickStatus::OutOfRange,
        }
    }
}

} // verus!
