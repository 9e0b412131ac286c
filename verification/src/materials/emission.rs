//! Lights.

use vstd::prelude::*;
use crate::misc::scalar::Scalar;
use crate::misc::vector::Vec3;

verus! {

/// A material that emits light of a colour, scaled by a power, and sends no
/// ray on.
#[derive(Clone, Copy, Debug, PartialEq, Eq, Structural)]
pub struct Emission {
    pub color: Vec3,
    pub power: Scalar,
}

impl Emission {
    pub fn new(color: Vec3, power: Scalar) -> (emission: Self)
        ensures
            emission == (Emission { color, power }),
    {
        Emission { color, power }
    }
}

} // verus!
