//! What all materials have in common.

use vstd::prelude::*;
use crate::materials::emission::Emission;
use crate::materials::lambertian::Lambertian;
use crate::materials::reflective::Reflective;
use crate::materials::refractive::Refractive;
use crate::misc::scalar::Scalar;
use crate::misc::tracer::Bounce;
use crate::misc::vector::Vec3;

verus! {

/// A surface material, one of the four kinds.
#[derive(Clone, Copy, Debug, PartialEq, Eq, Structural)]
pub enum Material {
    Emission(Emission),
    Lambertian(Lambertian),
    Reflective(Reflective),
    Refractive(Refractive),
}

impl Material {
    /// What becomes of a ray that hits the material: a light sends none on,
    /// every other material always does.
    pub open spec fn outcome(self) -> Bounce {
        match self {
            Material::Emission(_) => Bounce::Absorbed,
            _ => Bounce::Scattered,
        }
    }

    pub fn scatter_outcome(&self) -> (bounce: Bounce)
        ensures
            bounce == self.outcome(),
    {
        match self {
            Material::Emission(_) => Bounce::Absorbed,
            _ => Bounce::Scattered,
        }
    }
}

/// The normal that scattering is computed with: the surface normal, turned
/// round where the ray runs along it, so that it always points to the side the
/// ray arrives from.
pub open spec fn facing_normal(normal: Vec3, along: Scalar) -> Vec3 {
    if along.greater(Scalar { bits: 0 }) {
        normal.negated()
    } else {
        normal
    }
}

/// Corrects a surface normal for a ray.  `along` is the dot product of the
/// ray's direction and the normal.
pub fn corrected_normal(normal: &Vec3, along: Scalar) -> (corrected: Vec3)
    ensures
        corrected == facing_normal(*normal, along),
{
    if along.gt(Scalar::zero_value()) {
        normal.neg()
    } else {
        *normal
    }
}

} // verus!
