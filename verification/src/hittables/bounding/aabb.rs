//! Axis-aligned bounding boxes.

use vstd::prelude::*;
use crate::misc::scalar::Scalar;
use crate::misc::vector::Vec3;

verus! {

/// A box with faces parallel to the coordinate planes, given by its two
/// extreme corners.
#[derive(Clone, Copy, Debug, PartialEq, Eq, Structural)]
pub struct Aabb {
    pub minimum: Vec3,
    pub maximum: Vec3,
}

/// The distances at which a ray crosses the two planes that bound a box along
/// one axis, and the reciprocal of the ray's direction along that axis.
#[derive(Clone, Copy, Debug, PartialEq, Eq, Structural)]
pub struct Slab {
    pub inv_direction: Scalar,
    pub t0: Scalar,
    pub t1: Scalar,
}

impl Slab {
    /// The distance at which the ray enters the slab: the crossings change
    /// places when the ray runs against the axis.
    pub open spec fn entry(self) -> Scalar {
        if self.inv_direction.less(Scalar { bits: 0 }) {
            self.t1
        } else {
            self.t0
        }
    }

    /// The distance at which the ray leaves the slab.
    pub open spec fn exit(self) -> Scalar {
        if self.inv_direction.less(Scalar { bits: 0 }) {
            self.t0
        } else {
            self.t1
        }
    }

    /// The lower end of what the slab leaves of an interval: the larger of
    /// the entry and the interval's lower end.
    pub open spec fn raised(self, low: Scalar) -> Scalar {
        if self.entry().greater(low) {
            self.entry()
        } else {
            low
        }
    }

    /// The upper end of what the slab leaves of an interval: the smaller of
    /// the exit and the interval's upper end.
    pub open spec fn lowered(self, high: Scalar) -> Scalar {
        if self.exit().less(high) {
            self.exit()
        } else {
            high
        }
    }

    /// Whether the slab leaves something of the interval from `low` to
    /// `high`: the upper end of what is left stays above the lower end.
    pub open spec fn passes(self, low: Scalar, high: Scalar) -> bool {
        !self.lowered(high).at_most(self.raised(low))
    }

    /// Narrows an interval to what the slab leaves of it; nothing when the
    /// slab leaves nothing.
    pub fn narrow(&self, low: Scalar, high: Scalar) -> (r: Option<(Scalar, Scalar)>)
        ensures
            r == if self.passes(low, high) {
                Some((self.raised(low), self.lowered(high)))
            } else {
                None
            },
    {
        let mut t0 = self.t0;
        let mut t1 = self.t1;
        if self.inv_direction.lt(Scalar::zero_value()) {
            let swapped = t0;
            t0 = t1;
            t1 = swapped;
        }
        let raised = if t0.gt(low) {
            t0
        } else {
            low
        };
        let lowered = if t1.lt(high) {
            t1
        } else {
            high
        };
        if lowered.le(raised) {
            None
        } else {
            Some((raised, lowered))
        }
    }

    /// Whether the slab leaves something of the interval.
    pub fn test(&self, low: Scalar, high: Scalar) -> (r: bool)
        ensures
            r == self.passes(low, high),
    {
        self.narrow(low, high).is_some()
    }
}

/// What the first `n` slabs leave of the interval from `t_min` to `t_max`,
/// each narrowing what the one before it left; nothing as soon as one of them
/// leaves nothing.
pub open spec fn remaining(slabs: Seq<Slab>, t_min: Scalar, t_max: Scalar, n: nat) -> Option<
    (Scalar, Scalar),
>
    decreases n,
{
    if n == 0 {
        Some((t_min, t_max))
    } else {
        match remaining(slabs, t_min, t_max, (n - 1) as nat) {
            None => None,
            Some((low, high)) => if slabs[n - 1].passes(low, high) {
                Some((slabs[n - 1].raised(low), slabs[n - 1].lowered(high)))
            } else {
                None
            },
        }
    }
}

impl Aabb {
    /// The box around two boxes: component by component the smaller of the
    /// minima and the larger of the maxima.
    pub open spec fn around(self, other: Aabb) -> Aabb {
        Aabb {
            minimum: Vec3 {
                x: self.minimum.x.smaller(other.minimum.x),
                y: self.minimum.y.smaller(other.minimum.y),
                z: self.minimum.z.smaller(other.minimum.z),
            },
            maximum: Vec3 {
                x: self.maximum.x.larger(other.maximum.x),
                y: self.maximum.y.larger(other.maximum.y),
                z: self.maximum.z.larger(other.maximum.z),
            },
        }
    }

    pub fn new(minimum: Vec3, maximum: Vec3) -> (aabb: Aabb)
        ensures
            aabb == (Aabb { minimum, maximum }),
    {
        Aabb { minimum, maximum }
    }

    /// Whether a ray with the given crossings of the three slabs hits the box
    /// between `t_min` and `t_max`: the three slabs, one after the other,
    /// leave something of the interval.
    pub fn hit(slabs: &[Slab; 3], t_min: Scalar, t_max: Scalar) -> (r: bool)
        ensures
            r == remaining(slabs@, t_min, t_max, 3) is Some,
    {
        let mut low = t_min;
        let mut high = t_max;
        let mut i: usize = 0;
        while i < 3
            invariant
                0 <= i <= 3,
                remaining(slabs@, t_min, t_max, i as nat) == Some((low, high)),
            decreases 3 - i,
        {
            match slabs[i].narrow(low, high) {
                None => {
                    proof {
                        lemma_nothing_stays_nothing(slabs@, t_min, t_max, (i + 1) as nat, 3);
                    }
                    return false;
                },
                Some((raised, lowered)) => {
                    low = raised;
                    high = lowered;
                },
            }
            i = i + 1;
        }
        true
    }

    pub fn surrounding(&self, other: Aabb) -> (aabb: Aabb)
        ensures
            aabb == self.around(other),
    {
        let min = Vec3::new(
            self.minimum.x.min(other.minimum.x),
            self.minimum.y.min(other.minimum.y),
            self.minimum.z.min(other.minimum.z),
        );
        let max = Vec3::new(
            self.maximum.x.max(other.maximum.x),
            self.maximum.y.max(other.maximum.y),
            self.maximum.z.max(other.maximum.z),
        );
        Aabb::new(min, max)
    }
}

/// Once the slabs have left nothing of an interval, further slabs leave
/// nothing.
pub proof fn lemma_nothing_stays_nothing(
    slabs: Seq<Slab>,
    t_min: Scalar,
    t_max: Scalar,
    n: nat,
    m: nat,
)
    requires
        n <= m,
        remaining(slabs, t_min, t_max, n) is None,
    ensures
        remaining(slabs, t_min, t_max, m) is None,
    decreases m,
{
    if n < m {
        lemma_nothing_stays_nothing(slabs, t_min, t_max, n, (m - 1) as nat);
    }
}

} // verus!
