//! Diffuse surfaces.

use vstd::prelude::*;
use crate::misc::vector::Vec3;

verus! {

/// A material that scatters an arriving ray into a random direction on the
/// side it arrived from, and tints it by its albedo.
#[derive(Clone, Copy, Debug, PartialEq, Eq, Structural)]
pub struct Lambertian {
    pub albedo: Vec3,
}

impl Lambertian {
    pub fn new(albedo: Vec3) -> (lambertian: Self)
        ensures
            lambertian == (Lambertian { albedo }),
    {
        Lambertian { albedo }
    }

    pub fn get_attenuation(&self) -> (attenuation: Vec3)
        ensures
            attenuation == self.albedo,
    {
        self.albedo
    }
}

} // verus!
