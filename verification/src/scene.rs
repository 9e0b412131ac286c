//! The description of a scene: a camera, named materials, and surfaces that
//! name their material.  A description is plain data; building a scene from it
//! checks the names and hands every part to the caller's constructors.

pub mod camera_info;
pub mod emission_info;
pub mod hittable_info;
pub mod lambertian_info;
pub mod material_info;
pub mod reflective_info;
pub mod refractive_info;
pub mod scene_info;
pub mod sphere_info;
pub mod triangle_info;
pub mod xy_rect_info;
pub mod xz_rect_info;
pub mod yz_rect_info;
