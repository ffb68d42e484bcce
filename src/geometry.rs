use vstd::prelude::*;

verus! {

/// A point or a vector in world space, each component in millionths of a
/// world unit.
#[derive(Clone, Copy, Debug, PartialEq, Eq, Structural)]
pub struct Fixed3 {
    pub x: i64,
    pub y: i64,
    pub z: i64,
}

/// A direction in world space, each component in millionths; the directions
/// that a camera hands over are unit vectors, so each component lies within
/// one million of zero.
#[derive(Clone, Copy, Debug, PartialEq, Eq, Structural)]
pub struct Dir3 {
    pub x: i32,
    pub y: i32,
    pub z: i32,
}

impl Fixed3 {
    pub open spec fn is_zero(self) -> bool {
        self.x == 0 && self.y == 0 && self.z == 0
    }

    pub fn zero() -> (r: Fixed3)
        ensures
            r.is_zero(),
    {
        Fixed3 { x: 0, y: 0, z: 0 }
    }

    pub fn new(x: i64, y: i64, z: i64) -> (r: Fixed3)
        ensures
            r.x == x && r.y == y && r.z == z,
    {
        Fixed3 { x, y, z }
    }
}

impl Dir3 {
    pub fn new(x: i32, y: i32, z: i32) -> (r: Dir3)
        ensures
            r.x == x && r.y == y && r.z == z,
    {
        Dir3 { x, y, z }
    }
}

} // verus!
