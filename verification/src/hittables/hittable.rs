//! The capability that every surface has.

use vstd::prelude::*;
use crate::hittables::bounding::aabb::Aabb;
use crate::misc::hit_record::HitRecord;
use crate::misc::ray::Ray;
use crate::misc::scalar::Scalar;

verus! {

/// Something that a ray can hit.
pub trait Hittable {
    /// Whether the surface can answer a query in this way: asked with `ray`,
    /// the two distances and the record `before`, it returns `hit` and leaves
    /// the record as `after`.  A surface of which nothing is stated can answer
    /// in any way.
    open spec fn answers(
        &self,
        ray: Ray,
        t_min: Scalar,
        t_max: Scalar,
        before: HitRecord,
        hit: bool,
        after: HitRecord,
    ) -> bool {
        true
    }

    /// Casts a ray at the surface and says whether it hits between `t_min`
    /// and `t_max`.  On a hit the record says where.
    fn hit(&self, ray: &Ray, t_min: Scalar, t_max: Scalar, record: &mut HitRecord) -> (hit: bool)
        ensures
            self.answers(*ray, t_min, t_max, *old(record), hit, *final(record)),
    ;

    /// A box that holds the surface, if it has one.
    fn bounding_box(&self) -> Option<Aabb>;
}

} // verus!
