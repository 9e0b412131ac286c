//! The description of a mirror-like material.

use vstd::prelude::*;
use crate::misc::scalar::Scalar;
use crate::misc::vector::Vec3;

verus! {

/// A named material that reflects light, the sharper the larger `reflectiveness` is.
#[derive(Clone, Debug)]
pub struct ReflectiveInfo {
    pub name: String,
    pub color: Vec3,
    pub reflectiveness: Scalar,
}

impl ReflectiveInfo {
    pub fn new(name: &str, color: Vec3, reflectiveness: Scalar) -> (info: Self)
        ensures
            info.name@ == name@,
            info.color == color,
            info.reflectiveness == reflectiveness,
    {
        ReflectiveInfo { name: name.to_owned(), color, reflectiveness }
    }

    pub fn boxed(name: &str, color: Vec3, reflectiveness: Scalar) -> (info: Box<Self>)
        ensures
            info.name@ == name@,
            info.color == color,
            info.reflectiveness == reflectiveness,
    {
        Box::new(Self::new(name, color, reflectiveness))
    }

    pub fn get_name(&self) -> (name: &str)
        ensures
            name@ == self.name@,
    {
        self.name.as_str()
    }
}

} // verus!
