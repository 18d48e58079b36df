//! A stabilized semi-implicit (symplectic) Euler spring follower.
//!
//! A follower point springs toward a moving target point.  Human-meaningful
//! tuning parameters (frequency, damping, response) are converted into the
//! three integration constants of a spring-damper, the divisor is floored so
//! the step stays stable at large time steps, and the follower's velocity and
//! position are advanced once per tick, each from the values the tick started
//! with.  All quantities are fixed-point scalars so that every step is exact
//! integer arithmetic.

pub mod fixed;
pub mod vec3;
pub mod spring;
pub mod sweep;
pub mod laws;
