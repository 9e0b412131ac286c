//! The description of a sphere.

use vstd::prelude::*;
use crate::hittables::sphere::Sphere;
use crate::misc::scalar::Scalar;
use crate::misc::vector::Vec3;

verus! {

/// A named sphere and the name of its material.
#[derive(Clone, Debug)]
pub struct SphereInfo {
    pub name: String,
    pub material_name: String,
    pub center: Vec3,
    pub radius: Scalar,
}

impl SphereInfo {
    pub fn new(name: &str, material_name: &str, center: Vec3, radius: Scalar) -> (info: Self)
        ensures
            info.name@ == name@,
            info.material_name@ == material_name@,
            info.center == center,
            info.radius == radius,
    {
        SphereInfo { name: name.to_owned(), material_name: material_name.to_owned(), center, radius }
    }

    pub fn boxed(name: &str, material_name: &str, center: Vec3, radius: Scalar) -> (info: Box<Self>)
        ensures
            info.name@ == name@,
            info.material_name@ == material_name@,
            info.center == center,
            info.radius == radius,
    {
        Box::new(Self::new(name, material_name, center, radius))
    }

    pub fn get_name(&self) -> (name: &str)
        ensures
            name@ == self.name@,
    {
        self.name.as_str()
    }

    pub fn get_material_name(&self) -> (name: &str)
        ensures
            name@ == self.material_name@,
    {
        self.material_name.as_str()
    }

    /// The sphere, with its material given by its place in the scene's list.
    pub fn build(&self, material: usize) -> (sphere: Box<Sphere>)
        ensures
            *sphere == (Sphere { center: self.center, radius: self.radius, material }),
    {
        Sphere::boxed(self.center, self.radius, material)
    }
}

} // verus!
