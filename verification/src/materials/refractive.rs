//! Glass-like surfaces.

use vstd::prelude::*;
use crate::misc::scalar::Scalar;
use crate::misc::vector::Vec3;

verus! {

/// The pattern of `0.85`: a uniform sample above it makes a refractive
/// surface reflect.
pub const REFLECTION_THRESHOLD_BITS: u32 = 0x3f59_999a;

/// Which ratio of refractive indices a ray is bent by.
#[derive(Clone, Copy, Debug, PartialEq, Eq, Structural)]
pub enum RefractionRatio {
    /// One over the material's index: the ray enters the material.
    Reciprocal,
    /// The material's index: the ray leaves the material.
    Index,
}

/// A material that bends an arriving ray by its index of refraction, or now
/// and then reflects it, and tints it by its albedo.
#[derive(Clone, Copy, Debug, PartialEq, Eq, Structural)]
pub struct Refractive {
    pub albedo: Vec3,
    pub index_of_refraction: Scalar,
}

impl Refractive {
    /// Whether a uniform sample from zero to one makes the surface reflect
    /// rather than refract: it does when the sample is greater than `0.85`.
    pub open spec fn reflects_at(sample: Scalar) -> bool {
        sample.greater(Scalar { bits: REFLECTION_THRESHOLD_BITS })
    }

    pub fn new(albedo: Vec3, index_of_refraction: Scalar) -> (refractive: Self)
        ensures
            refractive == (Refractive { albedo, index_of_refraction }),
    {
        Refractive { albedo, index_of_refraction }
    }

    pub fn get_attenuation(&self) -> (attenuation: Vec3)
        ensures
            attenuation == self.albedo,
    {
        self.albedo
    }

    /// The ratio for a hit on the given face: the reciprocal of the index on
    /// a front face, the index itself on a back face.
    pub fn refraction_ratio(is_front_face: bool) -> (ratio: RefractionRatio)
        ensures
            ratio == if is_front_face {
                RefractionRatio::Reciprocal
            } else {
                RefractionRatio::Index
            },
    {
        if is_front_face {
            RefractionRatio::Reciprocal
        } else {
            RefractionRatio::Index
        }
    }

    /// Decides between reflection and refraction from a uniform sample.
    pub fn reflects(sample: Scalar) -> (r: bool)
        ensures
            r == Self::reflects_at(sample),
    {
        sample.gt(Scalar::from_bits(REFLECTION_THRESHOLD_BITS))
    }
}

} // verus!
