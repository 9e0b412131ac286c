//! What is known of the place where a ray met a surface.

use vstd::prelude::*;
use crate::misc::scalar::Scalar;
use crate::misc::vector::Vec3;

verus! {

/// The place where a ray met a surface.  The material is named by its place
/// in the scene's list of materials.
#[derive(Clone, Copy, Debug, PartialEq, Eq, Structural)]
pub struct HitRecord {
    pub point: Vec3,
    pub normal: Vec3,
    pub distance: Scalar,
    pub material: Option<usize>,
    pub is_front_face: bool,
}

impl HitRecord {
    /// The record that a query starts from: everything zero, no material,
    /// front face.
    pub open spec fn blank() -> HitRecord {
        HitRecord {
            point: Vec3::origin(),
            normal: Vec3::origin(),
            distance: Scalar { bits: 0 },
            material: None,
            is_front_face: true,
        }
    }

    pub fn new(
        point: Vec3,
        normal: Vec3,
        distance: Scalar,
        is_front_face: bool,
        material: usize,
    ) -> (record: HitRecord)
        ensures
            record == (HitRecord {
                point,
                normal,
                distance,
                material: Some(material),
                is_front_face,
            }),
    {
        HitRecord { point, normal, distance, material: Some(material), is_front_face }
    }

    pub fn default() -> (record: HitRecord)
        ensures
            record == HitRecord::blank(),
    {
        HitRecord {
            point: Vec3::zeros(),
            normal: Vec3::zeros(),
            distance: Scalar::zero_value(),
            material: None,
            is_front_face: true,
        }
    }

    pub fn get_point(&self) -> (point: &Vec3)
        ensures
            *point == self.point,
    {
        &self.point
    }

    pub fn get_normal(&self) -> (normal: &Vec3)
        ensures
            *normal == self.normal,
    {
        &self.normal
    }

    pub fn get_distance(&self) -> (distance: Scalar)
        ensures
            distance == self.distance,
    {
        self.distance
    }

    pub fn get_material(&self) -> (material: Option<usize>)
        ensures
            material == self.material,
    {
        self.material
    }

    pub fn get_is_front_face(&self) -> (is_front_face: bool)
        ensures
            is_front_face == self.is_front_face,
    {
        self.is_front_face
    }

    pub fn set_point(&mut self, point: Vec3)
        ensures
            *final(self) == (HitRecord { point, ..*old(self) }),
    {
        self.point = point;
    }

    pub fn set_normal(&mut self, normal: Vec3)
        ensures
            *final(self) == (HitRecord { normal, ..*old(self) }),
    {
        self.normal = normal;
    }

    pub fn set_distance(&mut self, distance: Scalar)
        ensures
            *final(self) == (HitRecord { distance, ..*old(self) }),
    {
        self.distance = distance;
    }

    pub fn set_material(&mut self, material: usize)
        ensures
            *final(self) == (HitRecord { material: Some(material), ..*old(self) }),
    {
        self.material = Some(material);
    }

    pub fn set_is_front_face(&mut self, is_front_face: bool)
        ensures
            *final(self) == (HitRecord { is_front_face, ..*old(self) }),
    {
        self.is_front_face = is_front_face;
    }
}

} // verus!
