//! A scene ready to be traced.

use vstd::prelude::*;
use crate::hittables::hittable::Hittable;
use crate::hittables::hittable_list::HittableList;

verus! {

/// A camera, the materials, and the surfaces.  A surface names its material
/// by the material's place in the list.
pub struct Scene<C, M, H: Hittable> {
    pub camera: C,
    pub materials: Vec<M>,
    pub hittable_list: HittableList<H>,
}

impl<C, M, H: Hittable> Scene<C, M, H> {
    pub fn new(camera: C, materials: Vec<M>, hittable_list: HittableList<H>) -> (scene: Self)
        ensures
            scene.camera == camera,
            scene.materials == materials,
            scene.hittable_list == hittable_list,
    {
        Scene { camera, materials, hittable_list }
    }

    pub fn get_camera(&self) -> (camera: &C)
        ensures
            *camera == self.camera,
    {
        &self.camera
    }

    pub fn get_hittable_list(&self) -> (hittable_list: &HittableList<H>)
        ensures
            *hittable_list == self.hittable_list,
    {
        &self.hittable_list
    }

    pub fn get_materials(&self) -> (materials: &Vec<M>)
        ensures
            *materials == self.materials,
    {
        &self.materials
    }

    pub fn get_camera_mut(&mut self) -> (camera: &mut C)
        ensures
            *camera == old(self).camera,
            final(self).camera == *final(camera),
            final(self).materials == old(self).materials,
            final(self).hittable_list == old(self).hittable_list,
    {
        &mut self.camera
    }

    pub fn get_hittable_list_mut(&mut self) -> (hittable_list: &mut HittableList<H>)
        ensures
            *hittable_list == old(self).hittable_list,
            final(self).hittable_list == *final(hittable_list),
            final(self).camera == old(self).camera,
            final(self).materials == old(self).materials,
    {
        &mut self.hittable_list
    }

    pub fn get_materials_mut(&mut self) -> (materials: &mut Vec<M>)
        ensures
            *materials == old(self).materials,
            final(self).materials == *final(materials),
            final(self).camera == old(self).camera,
            final(self).hittable_list == old(self).hittable_list,
    {
        &mut self.materials
    }
}

} // verus!
