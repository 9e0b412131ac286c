//! The description of a square in a plane of constant x.

use vstd::prelude::*;
use crate::misc::scalar::Scalar;
use crate::misc::vector::Vec3;

verus! {

/// A named axis-aligned square in a plane of constant x, given by its
/// centre and the length of its edge, and the name of its material.
#[derive(Clone, Debug)]
pub struct YzRectInfo {
    pub name: String,
    pub material_name: String,
    pub position: Vec3,
    pub edge_length: Scalar,
}

impl YzRectInfo {
    pub fn square_new(name: &str, material_name: &str, position: Vec3, edge_length: Scalar) -> (info:
        Self)
        ensures
            info.name@ == name@,
            info.material_name@ == material_name@,
            info.position == position,
            info.edge_length == edge_length,
    {
        YzRectInfo {
            name: name.to_owned(),
            material_name: material_name.to_owned(),
            position,
            edge_length,
        }
    }

    pub fn square_boxed(
        name: &str,
        material_name: &str,
        position: Vec3,
        edge_length: Scalar,
    ) -> (info: Box<Self>)
        ensures
            info.name@ == name@,
            info.material_name@ == material_name@,
            info.position == position,
            info.edge_length == edge_length,
    {
        Box::new(Self::square_new(name, material_name, position, edge_length))
    }

    pub fn get_name(&self) -> (name: &str)
        ensures
            name@ == self.name@,
    {
        self.name.as_str()
    }

    pub fn get_material_name(&self) -> (name: &str)
        ensures
            name@ == self.material_name@,
    {
        self.material_name.as_str()
    }
}

} // verus!
