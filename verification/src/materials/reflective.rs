//! Mirror-like surfaces.

use vstd::prelude::*;
use crate::misc::scalar::Scalar;
use crate::misc::vector::Vec3;

verus! {

/// A material that reflects an arriving ray, blurred the less the larger its
/// reflectiveness is, and tints it by its albedo.
#[derive(Clone, Copy, Debug, PartialEq, Eq, Structural)]
pub struct Reflective {
    pub albedo: Vec3,
    pub reflectiveness: Scalar,
}

impl Reflective {
    pub fn new(albedo: Vec3, reflectiveness: Scalar) -> (reflective: Self)
        ensures
            reflective == (Reflective { albedo, reflectiveness }),
    {
        Reflective { albedo, reflectiveness }
    }

    pub fn get_attenuation(&self) -> (attenuation: Vec3)
        ensures
            attenuation == self.albedo,
    {
        self.albedo
    }
}

} // verus!
