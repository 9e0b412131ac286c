//! Triangles.

use vstd::prelude::*;
use crate::hittables::bounding::aabb::Aabb;
use crate::hittables::rect::{is_within, within};
use crate::misc::hit_record::HitRecord;
use crate::misc::scalar::{Scalar, ONE_BITS};
use crate::misc::vector::Vec3;

verus! {

/// A triangle given by its three corners.
#[derive(Clone, Copy, Debug, PartialEq, Eq, Structural)]
pub struct Triangle {
    pub point_one: Vec3,
    pub point_two: Vec3,
    pub point_three: Vec3,
    pub material: usize,
}

/// Where a ray meets the plane of a triangle, in the triangle's own terms.
#[derive(Clone, Copy, Debug, PartialEq, Eq, Structural)]
pub struct Meeting {
    /// The barycentric coordinate along the edge from the first corner to the
    /// second.
    pub u: Scalar,
    /// The barycentric coordinate along the edge from the first corner to the
    /// third.
    pub v: Scalar,
    /// The sum of the two coordinates.
    pub sum: Scalar,
    /// The distance along the ray.
    pub distance: Scalar,
    /// The cross product of the two edges that leave the first corner.
    pub normal: Vec3,
    /// The meeting point.
    pub point: Vec3,
}

impl Triangle {
    /// Whether a meeting counts as a hit: `u` lies between zero and one, `v`
    /// is at least zero, their sum is at most one, and the distance lies
    /// between `t_min` and `t_max`.  A coordinate or distance that is not a
    /// number passes none of these tests, so a ray that runs in the triangle's
    /// plane never hits.
    pub open spec fn accepts(meeting: Meeting, t_min: Scalar, t_max: Scalar) -> bool {
        &&& within(meeting.u, Scalar { bits: 0 }, Scalar { bits: ONE_BITS })
        &&& meeting.v.at_least(Scalar { bits: 0 })
        &&& meeting.sum.at_most(Scalar { bits: ONE_BITS })
        &&& within(meeting.distance, t_min, t_max)
    }

    /// The smallest and the largest of three numbers, taken pairwise from the
    /// left.
    pub open spec fn least(a: Scalar, b: Scalar, c: Scalar) -> Scalar {
        a.smaller(b).smaller(c)
    }

    pub open spec fn greatest(a: Scalar, b: Scalar, c: Scalar) -> Scalar {
        a.larger(b).larger(c)
    }

    /// The box that holds the three corners.
    pub open spec fn bounds(self) -> Aabb {
        Aabb {
            minimum: Vec3 {
                x: Self::least(self.point_one.x, self.point_two.x, self.point_three.x),
                y: Self::least(self.point_one.y, self.point_two.y, self.point_three.y),
                z: Self::least(self.point_one.z, self.point_two.z, self.point_three.z),
            },
            maximum: Vec3 {
                x: Self::greatest(self.point_one.x, self.point_two.x, self.point_three.x),
                y: Self::greatest(self.point_one.y, self.point_two.y, self.point_three.y),
                z: Self::greatest(self.point_one.z, self.point_two.z, self.point_three.z),
            },
        }
    }

    pub fn new(point_one: Vec3, point_two: Vec3, point_three: Vec3, material: usize) -> (triangle:
        Self)
        ensures
            triangle == (Triangle { point_one, point_two, point_three, material }),
    {
        Triangle { point_one, point_two, point_three, material }
    }

    pub fn boxed(point_one: Vec3, point_two: Vec3, point_three: Vec3, material: usize) -> (triangle:
        Box<Self>)
        ensures
            *triangle == (Triangle { point_one, point_two, point_three, material }),
    {
        Box::new(Triangle { point_one, point_two, point_three, material })
    }

    /// Decides whether a meeting with the triangle's plane is a hit, and
    /// records it if it is: normal, distance, point and material are written,
    /// the face flag is left alone.  On a miss the record is left as it was.
    pub fn hit(
        &self,
        meeting: &Meeting,
        t_min: Scalar,
        t_max: Scalar,
        record: &mut HitRecord,
    ) -> (hit: bool)
        ensures
            hit == Self::accepts(*meeting, t_min, t_max),
            hit ==> *final(record) == (HitRecord {
                point: meeting.point,
                normal: meeting.normal,
                distance: meeting.distance,
                material: Some(self.material),
                is_front_face: old(record).is_front_face,
            }),
            !hit ==> *final(record) == *old(record),
    {
        let zero = Scalar::zero_value();
        let one = Scalar::one();
        if !is_within(meeting.u, zero, one) || !meeting.v.ge(zero) || !meeting.sum.le(one) {
            return false;
        }
        if !is_within(meeting.distance, t_min, t_max) {
            return false;
        }
        record.set_normal(meeting.normal);
        record.set_distance(meeting.distance);
        record.set_point(meeting.point);
        record.set_material(self.material);
        true
    }

    pub fn bounding_box(&self) -> (aabb: Option<Aabb>)
        ensures
            aabb == Some(self.bounds()),
    {
        Some(
            Aabb::new(
                Vec3::new(
                    self.point_one.x.min(self.point_two.x).min(self.point_three.x),
                    self.point_one.y.min(self.point_two.y).min(self.point_three.y),
                    self.point_one.z.min(self.point_two.z).min(self.point_three.z),
                ),
                Vec3::new(
                    self.point_one.x.max(self.point_two.x).max(self.point_three.x),
                    self.point_one.y.max(self.point_two.y).max(self.point_three.y),
                    self.point_one.z.max(self.point_two.z).max(self.point_three.z),
                ),
            ),
        )
    }
}

} // verus!
