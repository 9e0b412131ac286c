//! The description of a camera.

use vstd::prelude::*;
use crate::misc::scalar::Scalar;
use crate::misc::vector::Vec3;

verus! {

/// Where a camera stands, what it looks at, which way is up, its vertical
/// field of view in degrees, and the ratio of its image's width to its height.
#[derive(Clone, Copy, Debug, PartialEq, Eq, Structural)]
pub struct CameraInfo {
    pub origin: Vec3,
    pub center: Vec3,
    pub up: Vec3,
    pub v_fov: Scalar,
    pub aspect_ratio: Scalar,
}

impl CameraInfo {
    pub fn new(origin: Vec3, center: Vec3, up: Vec3, v_fov: Scalar, aspect_ratio: Scalar) -> (info:
        Self)
        ensures
            info == (CameraInfo { origin, center, up, v_fov, aspect_ratio }),
    {
        CameraInfo { origin, center, up, v_fov, aspect_ratio }
    }
}

} // verus!
