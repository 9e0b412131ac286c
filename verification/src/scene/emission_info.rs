//! The description of a light.

use vstd::prelude::*;
use crate::misc::scalar::Scalar;
use crate::misc::vector::Vec3;

verus! {

/// A named material that emits light of the given colour, scaled by `power`.
#[derive(Clone, Debug)]
pub struct EmissionInfo {
    pub name: String,
    pub color: Vec3,
    pub power: Scalar,
}

impl EmissionInfo {
    pub fn new(name: &str, color: Vec3, power: Scalar) -> (info: Self)
        ensures
            info.name@ == name@,
            info.color == color,
            info.power == power,
    {
        EmissionInfo { name: name.to_owned(), color, power }
    }

    pub fn boxed(name: &str, color: Vec3, power: Scalar) -> (info: Box<Self>)
        ensures
            info.name@ == name@,
            info.color == color,
            info.power == power,
    {
        Box::new(Self::new(name, color, power))
    }

    pub fn get_name(&self) -> (name: &str)
        ensures
            name@ == self.name@,
    {
        self.name.as_str()
    }
}

} // verus!
