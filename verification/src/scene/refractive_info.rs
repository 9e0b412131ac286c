//! The description of a glass-like material.

use vstd::prelude::*;
use crate::misc::scalar::Scalar;
use crate::misc::vector::Vec3;

verus! {

/// A named material that bends light by the given index of refraction.
#[derive(Clone, Debug)]
pub struct RefractiveInfo {
    pub name: String,
    pub color: Vec3,
    pub index_of_refraction: Scalar,
}

impl RefractiveInfo {
    pub fn new(name: &str, color: Vec3, index_of_refraction: Scalar) -> (info: Self)
        ensures
            info.name@ == name@,
            info.color == color,
            info.index_of_refraction == index_of_refraction,
    {
        RefractiveInfo { name: name.to_owned(), color, index_of_refraction }
    }

    pub fn boxed(name: &str, color: Vec3, index_of_refraction: Scalar) -> (info: Box<Self>)
        ensures
            info.name@ == name@,
            info.color == color,
            info.index_of_refraction == index_of_refraction,
    {
        Box::new(Self::new(name, color, index_of_refraction))
    }

    pub fn get_name(&self) -> (name: &str)
        ensures
            name@ == self.name@,
    {
        self.name.as_str()
    }
}

} // verus!
