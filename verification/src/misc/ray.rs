//! Rays.

use vstd::prelude::*;
use crate::misc::vector::Vec3;

verus! {

/// A half-line: where it starts and which way it points.
#[derive(Clone, Copy, Debug, PartialEq, Eq, Structural)]
pub struct Ray {
    pub origin: Vec3,
    pub direction: Vec3,
}

impl Ray {
    /// A ray with exactly the given direction, whatever its length.
    pub fn no_norm(origin: Vec3, direction: Vec3) -> (ray: Ray)
        ensures
            ray == (Ray { origin, direction }),
    {
        Ray { origin, direction }
    }

    /// The ray from the origin with no direction.
    pub fn default() -> (ray: Ray)
        ensures
            ray == (Ray { origin: Vec3::origin(), direction: Vec3::origin() }),
    {
        Ray { origin: Vec3::zeros(), direction: Vec3::zeros() }
    }

    pub fn get_origin(&self) -> (origin: &Vec3)
        ensures
            *origin == self.origin,
    {
        &self.origin
    }

    pub fn get_direction(&self) -> (direction: &Vec3)
        ensures
            *direction == self.direction,
    {
        &self.direction
    }
}

} // verus!
