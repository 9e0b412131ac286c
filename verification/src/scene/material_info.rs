//! The description of a material of any kind.

use vstd::prelude::*;
use crate::materials::emission::Emission;
use crate::materials::lambertian::Lambertian;
use crate::materials::material::Material;
use crate::materials::reflective::Reflective;
use crate::materials::refractive::Refractive;
use crate::scene::emission_info::EmissionInfo;
use crate::scene::lambertian_info::LambertianInfo;
use crate::scene::reflective_info::ReflectiveInfo;
use crate::scene::refractive_info::RefractiveInfo;

verus! {

/// The description of a material, one of the four kinds.
#[derive(Clone, Debug)]
pub enum MaterialInfo {
    Emission(EmissionInfo),
    Lambertian(LambertianInfo),
    Reflective(ReflectiveInfo),
    Refractive(RefractiveInfo),
}

impl MaterialInfo {
    /// The name under which surfaces refer to the material.
    pub open spec fn name(&self) -> Seq<char> {
        match self {
            MaterialInfo::Emission(info) => info.name@,
            MaterialInfo::Lambertian(info) => info.name@,
            MaterialInfo::Reflective(info) => info.name@,
            MaterialInfo::Refractive(info) => info.name@,
        }
    }

    /// The material that is described.
    pub open spec fn material(&self) -> Material {
        match self {
            MaterialInfo::Emission(info) => Material::Emission(
                Emission { color: info.color, power: info.power },
            ),
            MaterialInfo::Lambertian(info) => Material::Lambertian(Lambertian { albedo: info.color }),
            MaterialInfo::Reflective(info) => Material::Reflective(
                Reflective { albedo: info.color, reflectiveness: info.reflectiveness },
            ),
            MaterialInfo::Refractive(info) => Material::Refractive(
                Refractive { albedo: info.color, index_of_refraction: info.index_of_refraction },
            ),
        }
    }

    pub fn get_name(&self) -> (name: &str)
        ensures
            name@ == self.name(),
    {
        match self {
            MaterialInfo::Emission(info) => info.get_name(),
            MaterialInfo::Lambertian(info) => info.get_name(),
            MaterialInfo::Reflective(info) => info.get_name(),
            MaterialInfo::Refractive(info) => info.get_name(),
        }
    }

    pub fn build(&self) -> (material: Material)
        ensures
            material == self.material(),
    {
        match self {
            MaterialInfo::Emission(info) => Material::Emission(Emission::new(info.color, info.power)),
            MaterialInfo::Lambertian(info) => Material::Lambertian(Lambertian::new(info.color)),
            MaterialInfo::Reflective(info) => Material::Reflective(
                Reflective::new(info.color, info.reflectiveness),
            ),
            MaterialInfo::Refractive(info) => Material::Refractive(
                Refractive::new(info.color, info.index_of_refraction),
            ),
        }
    }
}

} // verus!
