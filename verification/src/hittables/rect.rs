//! What the three axis-aligned rectangles have in common: a ray's crossing of
//! the rectangle's plane, and the test of that crossing.

use vstd::prelude::*;
use crate::misc::hit_record::HitRecord;
use crate::misc::scalar::Scalar;
use crate::misc::vector::{Vec2, Vec3};

verus! {

/// Where and how a ray crosses the plane of an axis-aligned rectangle.
#[derive(Clone, Copy, Debug, PartialEq, Eq, Structural)]
pub struct Crossing {
    /// The distance along the ray at which it crosses the plane.
    pub distance: Scalar,
    /// The crossing point's coordinate along the rectangle's first axis.
    pub first: Scalar,
    /// The crossing point's coordinate along the rectangle's second axis.
    pub second: Scalar,
    /// The dot product of the ray's direction and the rectangle's own normal.
    pub facing: Scalar,
    /// The crossing point.
    pub point: Vec3,
}

/// Whether a value lies in the closed interval from `low` to `high`.  What is
/// not a number lies in no interval.
pub open spec fn within(value: Scalar, low: Scalar, high: Scalar) -> bool {
    value.at_least(low) && value.at_most(high)
}

/// Whether a crossing counts as a hit: its distance lies between `t_min` and
/// `t_max`, and both coordinates lie within the rectangle's extents.
pub open spec fn rect_accepts(
    point_one: Vec2,
    point_two: Vec2,
    crossing: Crossing,
    t_min: Scalar,
    t_max: Scalar,
) -> bool {
    &&& within(crossing.distance, t_min, t_max)
    &&& within(crossing.first, point_one.x, point_two.x)
    &&& within(crossing.second, point_one.y, point_two.y)
}

/// Whether the ray runs along the rectangle's own normal rather than against
/// it: the dot product of the two is greater than zero.
pub open spec fn runs_along(crossing: Crossing) -> bool {
    crossing.facing.greater(Scalar { bits: 0 })
}

/// The record of an accepted crossing.  The face flag is set exactly when the
/// ray runs along the rectangle's own normal.  The recorded normal faces the
/// arriving ray: it is the negation of the own normal where the ray runs
/// along that, and the own normal otherwise.
pub open spec fn rect_record(normal: Vec3, material: usize, crossing: Crossing) -> HitRecord {
    HitRecord {
        point: crossing.point,
        normal: if runs_along(crossing) {
            normal.negated()
        } else {
            normal
        },
        distance: crossing.distance,
        material: Some(material),
        is_front_face: runs_along(crossing),
    }
}

pub fn is_within(value: Scalar, low: Scalar, high: Scalar) -> (r: bool)
    ensures
        r == within(value, low, high),
{
    value.ge(low) && value.le(high)
}

pub(crate) fn rect_hit(
    point_one: &Vec2,
    point_two: &Vec2,
    normal: Vec3,
    material: usize,
    crossing: &Crossing,
    t_min: Scalar,
    t_max: Scalar,
    record: &mut HitRecord,
) -> (hit: bool)
    ensures
        hit == rect_accepts(*point_one, *point_two, *crossing, t_min, t_max),
        hit ==> *final(record) == rect_record(normal, material, *crossing),
        !hit ==> *final(record) == *old(record),
{
    if !is_within(crossing.distance, t_min, t_max) {
        return false;
    }
    if !is_within(crossing.first, point_one.x, point_two.x) || !is_within(
        crossing.second,
        point_one.y,
        point_two.y,
    ) {
        return false;
    }
    if crossing.facing.gt(Scalar::zero_value()) {
        record.set_normal(normal.neg());
        record.set_is_front_face(true);
    } else {
        record.set_normal(normal);
        record.set_is_front_face(false);
    }
    record.set_distance(crossing.distance);
    record.set_material(material);
    record.set_point(crossing.point);
    true
}

/// The box around a rectangle with the given corners in its own plane: per
/// axis the smaller and the larger of the two corners' coordinates.
pub open spec fn rect_extent(point_one: Vec2, point_two: Vec2) -> (Vec2, Vec2) {
    (
        Vec2 { x: point_one.x.smaller(point_two.x), y: point_one.y.smaller(point_two.y) },
        Vec2 { x: point_one.x.larger(point_two.x), y: point_one.y.larger(point_two.y) },
    )
}

pub(crate) fn extent(point_one: &Vec2, point_two: &Vec2) -> (r: (Vec2, Vec2))
    ensures
        r == rect_extent(*point_one, *point_two),
{
    (
        Vec2::new(point_one.x.min(point_two.x), point_one.y.min(point_two.y)),
        Vec2::new(point_one.x.max(point_two.x), point_one.y.max(point_two.y)),
    )
}

} // verus!
