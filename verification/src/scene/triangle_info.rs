//! The description of a triangle.

use vstd::prelude::*;
use crate::hittables::triangle::Triangle;
use crate::misc::vector::Vec3;

verus! {

/// A named triangle and the name of its material.
#[derive(Clone, Debug)]
pub struct TriangleInfo {
    pub name: String,
    pub material_name: String,
    pub point_one: Vec3,
    pub point_two: Vec3,
    pub point_three: Vec3,
}

impl TriangleInfo {
    pub fn new(
        name: &str,
        material_name: &str,
        point_one: Vec3,
        point_two: Vec3,
        point_three: Vec3,
    ) -> (info: Self)
        ensures
            info.name@ == name@,
            info.material_name@ == material_name@,
            info.point_one == point_one,
            info.point_two == point_two,
            info.point_three == point_three,
    {
        TriangleInfo {
            name: name.to_owned(),
            material_name: material_name.to_owned(),
            point_one,
            point_two,
            point_three,
        }
    }

    pub fn boxed(
        name: &str,
        material_name: &str,
        point_one: Vec3,
        point_two: Vec3,
        point_three: Vec3,
    ) -> (info: Box<Self>)
        ensures
            info.name@ == name@,
            info.material_name@ == material_name@,
            info.point_one == point_one,
            info.point_two == point_two,
            info.point_three == point_three,
    {
        Box::new(Self::new(name, material_name, point_one, point_two, point_three))
    }

    pub fn get_name(&self) -> (name: &str)
        ensures
            name@ == self.name@,
    {
        self.name.as_str()
    }

    pub fn get_material_name(&self) -> (name: &str)
        ensures
            name@ == self.material_name@,
    {
        self.material_name.as_str()
    }

    /// The triangle, with its material given by its place in the scene's
    /// list.
    pub fn build(&self, material: usize) -> (triangle: Box<Triangle>)
        ensures
            *triangle == (Triangle {
                point_one: self.point_one,
                point_two: self.point_two,
                point_three: self.point_three,
                material,
            }),
    {
        Triangle::boxed(self.point_one, self.point_two, self.point_three, material)
    }
}

} // verus!
