//! Exact three-dimensional vectors in fixed-point millimetre units.

use vstd::prelude::*;

verus! {

/// A point or offset in 3-space, in thousandths of a metre.
///
/// The robotics convention is used throughout: x points forward, y to the
/// left, z up.
#[derive(Clone, Copy, Debug, PartialEq, Eq, Structural)]
pub struct Vec3Milli {
    pub x: i64,
    pub y: i64,
    pub z: i64,
}

impl Vec3Milli {
    pub fn new(x: i64, y: i64, z: i64) -> (v: Vec3Milli)
        ensures
            v == (Vec3Milli { x, y, z }),
    {
        Vec3Milli { x, y, z }
    }

    /// Componentwise sum.
    pub fn add(self, other: Vec3Milli) -> (v: Vec3Milli)
        requires
            i64::MIN <= self.x + other.x <= i64::MAX,
            i64::MIN <= self.y + other.y <= i64::MAX,
            i64::MIN <= self.z + other.z <= i64::MAX,
        ensures
            v.x == self.x + other.x,
            v.y == self.y + other.y,
            v.z == self.z + other.z,
    {
        Vec3Milli { x: self.x + other.x, y: self.y + other.y, z: self.z + other.z }
    }
}

} // verus!
