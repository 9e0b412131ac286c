//! Spheres.

use vstd::prelude::*;
use crate::hittables::rect::{is_within, within};
use crate::misc::hit_record::HitRecord;
use crate::misc::scalar::Scalar;
use crate::misc::vector::Vec3;

verus! {

/// A sphere given by its centre and radius.
#[derive(Clone, Copy, Debug, PartialEq, Eq, Structural)]
pub struct Sphere {
    pub center: Vec3,
    pub radius: Scalar,
    pub material: usize,
}

/// The solution of the quadratic equation of a ray against a sphere.
#[derive(Clone, Copy, Debug, PartialEq, Eq, Structural)]
pub struct Roots {
    pub discriminant: Scalar,
    /// The smaller root: the distance at which the ray enters the sphere.
    pub near: Scalar,
    /// The larger root: the distance at which the ray leaves the sphere.
    pub far: Scalar,
}

/// A point of a surface and the normal there.
#[derive(Clone, Copy, Debug, PartialEq, Eq, Structural)]
pub struct Surface {
    pub point: Vec3,
    pub normal: Vec3,
}

impl Sphere {
    /// The distance at which a ray with the given roots hits the sphere
    /// between `t_min` and `t_max`: none if the discriminant is below zero;
    /// else the smaller root if it lies in the interval; else the larger root
    /// if that does; else none.
    pub open spec fn chosen_root(roots: Roots, t_min: Scalar, t_max: Scalar) -> Option<Scalar> {
        if roots.discriminant.less(Scalar { bits: 0 }) {
            None
        } else if within(roots.near, t_min, t_max) {
            Some(roots.near)
        } else if within(roots.far, t_min, t_max) {
            Some(roots.far)
        } else {
            None
        }
    }

    pub fn new(center: Vec3, radius: Scalar, material: usize) -> (sphere: Self)
        ensures
            sphere == (Sphere { center, radius, material }),
    {
        Sphere { center, radius, material }
    }

    pub fn boxed(center: Vec3, radius: Scalar, material: usize) -> (sphere: Box<Self>)
        ensures
            *sphere == (Sphere { center, radius, material }),
    {
        Box::new(Sphere { center, radius, material })
    }

    /// Picks the root that counts as the hit.
    pub fn select_root(roots: &Roots, t_min: Scalar, t_max: Scalar) -> (root: Option<Scalar>)
        ensures
            root == Self::chosen_root(*roots, t_min, t_max),
    {
        if roots.discriminant.lt(Scalar::zero_value()) {
            return None;
        }
        let mut root = roots.near;
        if !is_within(root, t_min, t_max) {
            root = roots.far;
            if !is_within(root, t_min, t_max) {
                return None;
            }
        }
        Some(root)
    }

    /// Decides whether a ray with the given roots hits the sphere, and records
    /// the hit if it does: `surface_at` is asked for the point and the normal
    /// at the chosen distance, and distance, point, normal and material are
    /// written; the face flag is left alone.  On a miss the record is left as
    /// it was and `surface_at` is not asked.
    pub fn hit<F>(
        &self,
        roots: &Roots,
        t_min: Scalar,
        t_max: Scalar,
        record: &mut HitRecord,
        surface_at: F,
    ) -> (hit: bool) where F: Fn(Scalar) -> Surface
        requires
            forall|root: Scalar|
                Self::chosen_root(*roots, t_min, t_max) == Some(root) ==> call_requires(
                    surface_at,
                    (root,),
                ),
        ensures
            hit == Self::chosen_root(*roots, t_min, t_max).is_some(),
            hit ==> {
                let root = Self::chosen_root(*roots, t_min, t_max).unwrap();
                &&& call_ensures(
                    surface_at,
                    (root,),
                    Surface { point: final(record).point, normal: final(record).normal },
                )
                &&& final(record).distance == root
                &&& final(record).material == Some(self.material)
                &&& final(record).is_front_face == old(record).is_front_face
            },
            !hit ==> *final(record) == *old(record),
    {
        match Self::select_root(roots, t_min, t_max) {
            None => false,
            Some(root) => {
                let surface = surface_at(root);
                record.set_distance(root);
                record.set_point(surface.point);
                record.set_normal(surface.normal);
                record.set_material(self.material);
                true
            },
        }
    }
}

/// A hit is reported only at a distance that is a number between `t_min` and
/// `t_max`, and the larger root is taken only where the smaller is not such a
/// distance.
pub proof fn lemma_chosen_root_in_interval(roots: Roots, t_min: Scalar, t_max: Scalar)
    ensures
        match Sphere::chosen_root(roots, t_min, t_max) {
            Some(root) => {
                &&& !root.nan()
                &&& t_min.at_most(root)
                &&& root.at_most(t_max)
                &&& !roots.discriminant.less(Scalar { bits: 0 })
                &&& root == roots.near || (root == roots.far && !within(roots.near, t_min, t_max))
            },
            None => roots.discriminant.less(Scalar { bits: 0 }) || (!within(roots.near, t_min, t_max)
                && !within(roots.far, t_min, t_max)),
        },
{
}

} // verus!
