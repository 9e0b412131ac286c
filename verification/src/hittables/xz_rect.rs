//! The rectangle in a plane of constant y.

use vstd::prelude::*;
use crate::hittables::bounding::aabb::Aabb;
use crate::hittables::rect::{
    extent, rect_accepts, rect_extent, rect_hit, rect_record, runs_along, Crossing,
};
use crate::misc::hit_record::HitRecord;
use crate::misc::scalar::Scalar;
use crate::misc::vector::{Vec2, Vec3};

verus! {

/// An axis-aligned rectangle in the plane `y = normal_displacement`.  Its
/// two corners give, in `x` and `y`, the extents along the x and the z axis.
#[derive(Clone, Copy, Debug, PartialEq, Eq, Structural)]
pub struct XzRect {
    pub point_one: Vec2,
    pub point_two: Vec2,
    pub normal_displacement: Scalar,
    pub material: usize,
}

impl XzRect {
    /// The rectangle's own normal: one step down the y axis.
    pub open spec fn own_normal() -> Vec3 {
        Vec3 { x: Scalar { bits: 0 }, y: Scalar { bits: 0xbf80_0000 }, z: Scalar { bits: 0 } }
    }

    /// The box that holds the rectangle.  It has no thickness.
    pub open spec fn bounds(self) -> Aabb {
        let (low, high) = rect_extent(self.point_one, self.point_two);
        Aabb {
            minimum: Vec3 { x: low.x, y: self.normal_displacement, z: low.y },
            maximum: Vec3 { x: high.x, y: self.normal_displacement, z: high.y },
        }
    }

    pub fn new(
        point_one: Vec2,
        point_two: Vec2,
        normal_displacement: Scalar,
        material: usize,
    ) -> (rect: Self)
        ensures
            rect == (XzRect { point_one, point_two, normal_displacement, material }),
    {
        XzRect { point_one, point_two, normal_displacement, material }
    }

    pub fn boxed(
        point_one: Vec2,
        point_two: Vec2,
        normal_displacement: Scalar,
        material: usize,
    ) -> (rect: Box<Self>)
        ensures
            *rect == (XzRect { point_one, point_two, normal_displacement, material }),
    {
        Box::new(XzRect { point_one, point_two, normal_displacement, material })
    }

    /// The rectangle's own normal.
    pub fn normal() -> (normal: Vec3)
        ensures
            normal == Self::own_normal(),
    {
        Vec3::from_bits(0, 0xbf80_0000, 0)
    }

    /// Decides whether a crossing of the rectangle's plane is a hit, and
    /// records it if it is.  The face flag of a hit says whether the ray runs
    /// along the rectangle's own normal, and the recorded normal faces the
    /// arriving ray.  On a miss the record is left as it was.
    pub fn hit(
        &self,
        crossing: &Crossing,
        t_min: Scalar,
        t_max: Scalar,
        record: &mut HitRecord,
    ) -> (hit: bool)
        ensures
            hit == rect_accepts(self.point_one, self.point_two, *crossing, t_min, t_max),
            hit ==> *final(record) == rect_record(Self::own_normal(), self.material, *crossing),
            hit ==> final(record).is_front_face == runs_along(*crossing),
            hit ==> final(record).normal == if runs_along(*crossing) {
                Self::own_normal().negated()
            } else {
                Self::own_normal()
            },
            !hit ==> *final(record) == *old(record),
    {
        rect_hit(
            &self.point_one,
            &self.point_two,
            Self::normal(),
            self.material,
            crossing,
            t_min,
            t_max,
            record,
        )
    }

    pub fn bounding_box(&self) -> (aabb: Option<Aabb>)
        ensures
            aabb == Some(self.bounds()),
    {
        let (low, high) = extent(&self.point_one, &self.point_two);
        Some(
            Aabb::new(
                Vec3 { x: low.x, y: self.normal_displacement, z: low.y },
                Vec3 { x: high.x, y: self.normal_displacement, z: high.y },
            ),
        )
    }
}

} // verus!
