//! The default source of random samples.

use vstd::prelude::*;
use crate::misc::scalar::{Scalar, ONE_BITS};
use crate::misc::vector::Vec3;

verus! {

/// The source of random samples that draws from the generator of the thread
/// it is used on.  It holds no state of its own.  Drawing the numbers is the
/// caller's; what a drawn candidate is good for is decided here.
#[derive(Clone, Copy, Debug, PartialEq, Eq, Structural)]
pub struct DefaultRandGen {}

impl Default for DefaultRandGen {
    fn default() -> (r: Self)
        ensures
            r == (DefaultRandGen {  }),
    {
        DefaultRandGen {  }
    }
}

impl DefaultRandGen {
    /// Whether a candidate drawn from the cube or the square around the
    /// origin lies inside the unit ball or disk: its length is below one.
    pub open spec fn inside_unit(magnitude: Scalar) -> bool {
        magnitude.less(Scalar { bits: ONE_BITS })
    }

    /// The sample of the hemisphere about a normal that a sample of the ball
    /// gives: the sample itself where its dot product with the normal is
    /// greater than zero, else its negation.
    pub open spec fn hemisphere_of(sample: Vec3, along: Scalar) -> Vec3 {
        if along.greater(Scalar { bits: 0 }) {
            sample
        } else {
            sample.negated()
        }
    }

    /// Decides whether a candidate of the given length is kept.
    pub fn accepts(&self, magnitude: Scalar) -> (r: bool)
        ensures
            r == Self::inside_unit(magnitude),
    {
        magnitude.lt(Scalar::one())
    }

    /// Turns a sample of the unit ball into one of the hemisphere about a
    /// normal.  `along` is the dot product of the sample and the normal.
    pub fn unit_hemisphere(&self, sample: Vec3, along: Scalar) -> (r: Vec3)
        ensures
            r == Self::hemisphere_of(sample, along),
    {
        if along.gt(Scalar::zero_value()) {
            sample
        } else {
            sample.neg()
        }
    }
}

} // verus!
