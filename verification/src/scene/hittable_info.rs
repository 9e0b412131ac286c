//! The description of a surface of any kind.

use vstd::prelude::*;
use crate::scene::sphere_info::SphereInfo;
use crate::scene::triangle_info::TriangleInfo;
use crate::scene::xy_rect_info::XyRectInfo;
use crate::scene::xz_rect_info::XzRectInfo;
use crate::scene::yz_rect_info::YzRectInfo;

verus! {

/// The description of a surface, one of the five kinds.
#[derive(Clone, Debug)]
pub enum HittableInfo {
    Sphere(SphereInfo),
    Triangle(TriangleInfo),
    XyRect(XyRectInfo),
    XzRect(XzRectInfo),
    YzRect(YzRectInfo),
}

impl HittableInfo {
    /// The surface's own name.
    pub open spec fn name(&self) -> Seq<char> {
        match self {
            HittableInfo::Sphere(info) => info.name@,
            HittableInfo::Triangle(info) => info.name@,
            HittableInfo::XyRect(info) => info.name@,
            HittableInfo::XzRect(info) => info.name@,
            HittableInfo::YzRect(info) => info.name@,
        }
    }

    /// The name of the surface's material.
    pub open spec fn material_name(&self) -> Seq<char> {
        match self {
            HittableInfo::Sphere(info) => info.material_name@,
            HittableInfo::Triangle(info) => info.material_name@,
            HittableInfo::XyRect(info) => info.material_name@,
            HittableInfo::XzRect(info) => info.material_name@,
            HittableInfo::YzRect(info) => info.material_name@,
        }
    }

    pub fn get_name(&self) -> (name: &str)
        ensures
            name@ == self.name(),
    {
        match self {
            HittableInfo::Sphere(info) => info.get_name(),
            HittableInfo::Triangle(info) => info.get_name(),
            HittableInfo::XyRect(info) => info.get_name(),
            HittableInfo::XzRect(info) => info.get_name(),
            HittableInfo::YzRect(info) => info.get_name(),
        }
    }

    pub fn get_material_name(&self) -> (name: &str)
        ensures
            name@ == self.material_name(),
    {
        match self {
            HittableInfo::Sphere(info) => info.get_material_name(),
            HittableInfo::Triangle(info) => info.get_material_name(),
            HittableInfo::XyRect(info) => info.get_material_name(),
            HittableInfo::XzRect(info) => info.get_material_name(),
            HittableInfo::YzRect(info) => info.get_material_name(),
        }
    }
}

} // verus!
