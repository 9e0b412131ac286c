//! Small fixed-size vectors of numbers and of integers.

use vstd::prelude::*;
use crate::misc::scalar::Scalar;

verus! {

/// Three numbers: a point, a direction or an RGB colour.
#[derive(Clone, Copy, Debug, PartialEq, Eq, Structural)]
pub struct Vec3 {
    pub x: Scalar,
    pub y: Scalar,
    pub z: Scalar,
}

/// Two numbers.
#[derive(Clone, Copy, Debug, PartialEq, Eq, Structural)]
pub struct Vec2 {
    pub x: Scalar,
    pub y: Scalar,
}

/// Two integers: a pixel coordinate or a resolution.
#[derive(Clone, Copy, Debug, PartialEq, Eq, Structural)]
pub struct IVec2 {
    pub x: i32,
    pub y: i32,
}

/// Three bytes: an RGB colour as a display holds it.
#[derive(Clone, Copy, Debug, PartialEq, Eq, Structural)]
pub struct U8Vec3 {
    pub x: u8,
    pub y: u8,
    pub z: u8,
}

/// Three integers: a quantised RGB colour.
#[derive(Clone, Copy, Debug, PartialEq, Eq, Structural)]
pub struct IVec3 {
    pub x: i32,
    pub y: i32,
    pub z: i32,
}

impl Vec3 {
    /// Three positive zeros: the origin, and the colour black.
    pub open spec fn origin() -> Vec3 {
        Vec3 { x: Scalar { bits: 0 }, y: Scalar { bits: 0 }, z: Scalar { bits: 0 } }
    }

    /// The vector with every component negated.
    pub open spec fn negated(self) -> Vec3 {
        Vec3 { x: self.x.negated(), y: self.y.negated(), z: self.z.negated() }
    }

    pub fn new(x: Scalar, y: Scalar, z: Scalar) -> (v: Vec3)
        ensures
            v == (Vec3 { x, y, z }),
    {
        Vec3 { x, y, z }
    }

    /// The vector of the three given bit patterns.
    pub fn from_bits(x: u32, y: u32, z: u32) -> (v: Vec3)
        ensures
            v.x.bits == x,
            v.y.bits == y,
            v.z.bits == z,
    {
        Vec3 { x: Scalar { bits: x }, y: Scalar { bits: y }, z: Scalar { bits: z } }
    }

    /// Three positive zeros.
    pub fn zeros() -> (v: Vec3)
        ensures
            v == Vec3::origin(),
    {
        Vec3::from_bits(0, 0, 0)
    }

    pub fn neg(self) -> (v: Vec3)
        ensures
            v == self.negated(),
    {
        Vec3 { x: self.x.neg(), y: self.y.neg(), z: self.z.neg() }
    }
}

impl Vec2 {
    pub fn new(x: Scalar, y: Scalar) -> (v: Vec2)
        ensures
            v == (Vec2 { x, y }),
    {
        Vec2 { x, y }
    }
}

impl IVec2 {
    pub fn new(x: i32, y: i32) -> (v: IVec2)
        ensures
            v == (IVec2 { x, y }),
    {
        IVec2 { x, y }
    }
}

impl U8Vec3 {
    pub fn new(x: u8, y: u8, z: u8) -> (v: U8Vec3)
        ensures
            v == (U8Vec3 { x, y, z }),
    {
        U8Vec3 { x, y, z }
    }
}

impl IVec3 {
    pub fn new(x: i32, y: i32, z: i32) -> (v: IVec3)
        ensures
            v == (IVec3 { x, y, z }),
    {
        IVec3 { x, y, z }
    }
}

} // verus!
