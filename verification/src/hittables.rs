//! Surfaces that a ray can hit, and the decisions that each takes once the
//! arithmetic of a ray against it has been done.

pub mod bounding;
pub mod hittable;
pub mod hittable_list;
pub mod rect;
pub mod sphere;
pub mod triangle;
pub mod xy_rect;
pub mod xz_rect;
pub mod yz_rect;
