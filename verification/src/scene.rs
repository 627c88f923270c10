//! A scene: one camera and the objects it looks at.
use vstd::prelude::*;
use crate::camera::{default_camera, Camera, CameraView};
use crate::object::Object;

verus! {

/// The camera and the objects, in the order in which they were added.
pub struct Scene {
    camera: Camera,
    objects: Vec<Object>,
}

impl Scene {
    /// The objects, in their order.
    pub closed spec fn objects_view(self) -> Seq<Object> {
        self.objects@
    }

    /// What the camera holds.
    pub closed spec fn camera_view(self) -> CameraView {
        self.camera@
    }

    /// Adds an object behind those that are there.
    pub fn add_object(&mut self, object: Object)
        ensures
            final(self).objects_view() == old(self).objects_view().push(object),
            final(self).camera_view() == old(self).camera_view(),
    {
        self.objects.push(object);
    }

    pub fn camera(&self) -> (c: &Camera)
        ensures
            c@ == self.camera_view(),
    {
        &self.camera
    }

    /// The camera, to change it in place.
    pub fn camera_mut(&mut self) -> (c: &mut Camera)
        ensures
            c@ == old(self).camera_view(),
            final(self).camera_view() == final(c)@,
            final(self).objects_view() == old(self).objects_view(),
    {
        &mut self.camera
    }

    pub fn objects(&self) -> (v: &Vec<Object>)
        ensures
            v@ == self.objects_view(),
    {
        &self.objects
    }

    /// The objects, to change them in place.
    pub fn objects_mut(&mut self) -> (v: &mut Vec<Object>)
        ensures
            v@ == old(self).objects_view(),
            final(self).objects_view() == final(v)@,
            final(self).camera_view() == old(self).camera_view(),
    {
        &mut self.objects
    }
}

impl Default for Scene {
    /// The scene with the default camera and no object.
    fn default() -> (s: Self)
        ensures
            s.camera_view() == default_camera(),
            s.objects_view() == Seq::<Object>::empty(),
    {
        Scene { camera: Camera::default(), objects: Vec::new() }
    }
}

} // verus!
