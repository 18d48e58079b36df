//! A three-component vector of fixed-point scalars.

use vstd::prelude::*;

verus! {

/// A point or velocity in space; each component is a fixed-point
/// scalar in raw units of `SCALE`.
#[derive(Clone, Copy, Debug, PartialEq, Eq, Structural)]
pub struct V3 {
    pub x: i64,
    pub y: i64,
    pub z: i64,
}

impl V3 {
    /// The origin.
    pub fn zero() -> (r: V3)
        ensures
            r == V3::spec_zero(),
    {
        V3 { x: 0, y: 0, z: 0 }
    }

    /// The origin, as a specification value.
    pub open spec fn spec_zero() -> V3 {
        V3 { x: 0, y: 0, z: 0 }
    }

    /// Builds a vector from its components.
    pub fn new(x: i64, y: i64, z: i64) -> (r: V3)
        ensures
            r.x == x,
            r.y == y,
            r.z == z,
    {
        V3 { x, y, z }
    }
}

} // verus!
