//! The description of a diffuse material.

use vstd::prelude::*;
use crate::misc::vector::Vec3;

verus! {

/// A named material that scatters light evenly, tinted by the given colour.
#[derive(Clone, Debug)]
pub struct LambertianInfo {
    pub name: String,
    pub color: Vec3,
}

impl LambertianInfo {
    pub fn new(name: &str, color: Vec3) -> (info: Self)
        ensures
            info.name@ == name@,
            info.color == color,
    {
        LambertianInfo { name: name.to_owned(), color }
    }

    pub fn boxed(name: &str, color: Vec3) -> (info: Box<Self>)
        ensures
            info.name@ == name@,
            info.color == color,
    {
        Box::new(Self::new(name, color))
    }

    pub fn get_name(&self) -> (name: &str)
        ensures
            name@ == self.name@,
    {
        self.name.as_str()
    }
}

} // verus!
