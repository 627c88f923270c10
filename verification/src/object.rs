//! A shape placed in the world: the shape, the transform that places it, and
//! its material.
use vstd::prelude::*;
use crate::material::Material;
use crate::scalar::Scalar;
use crate::shapes::{Cube, Cylinder, Plane, Shape, Sphere};
use crate::transform::Transform;

verus! {

#[derive(Debug, PartialEq)]
pub struct Object {
    shape: Shape,
    transform: Transform,
    material: Material,
}

impl Object {
    /// The shape that the object places.
    pub closed spec fn shape_view(self) -> Shape {
        self.shape
    }

    /// The transform that places it.
    pub closed spec fn transform_view(self) -> Transform {
        self.transform
    }

    /// Whether the object stands where its shape stands: the transform has
    /// never been changed, so its pose and its three matrices are the identity.
    pub open spec fn unplaced(self) -> bool {
        &&& self.transform_view().untouched()
        &&& !self.transform_view().stale()
    }

    /// The shape where its own space is the world's.
    pub fn new(shape: Shape) -> (o: Self)
        ensures
            o.shape_view() == shape,
            o.unplaced(),
    {
        Object { shape, transform: Transform::new(), material: Material {} }
    }

    pub fn new_sphere() -> (o: Self)
        ensures
            o.shape_view() == Shape::Sphere(Sphere {}),
            o.unplaced(),
    {
        Object::new(Shape::Sphere(Sphere::new()))
    }

    pub fn new_plane() -> (o: Self)
        ensures
            o.shape_view() == Shape::Plane(Plane {}),
            o.unplaced(),
    {
        Object::new(Shape::Plane(Plane::new()))
    }

    pub fn new_cube() -> (o: Self)
        ensures
            o.shape_view() == Shape::Cube(Cube {}),
            o.unplaced(),
    {
        Object::new(Shape::Cube(Cube::new()))
    }

    pub fn new_cylinder() -> (o: Self)
        ensures
            o.shape_view() == Shape::Cylinder(
                Cylinder { min: Scalar::zero(), max: Scalar::zero(), closed: false },
            ),
            o.unplaced(),
    {
        Object::new(Shape::Cylinder(Cylinder::new()))
    }

    /// The same object placed by another transform.
    pub fn with_transform(self, transform: Transform) -> (o: Self)
        ensures
            o.shape_view() == self.shape_view(),
            o.transform_view() == transform,
    {
        Object { shape: self.shape, transform, material: self.material }
    }

    pub fn shape(&self) -> (s: &Shape)
        ensures
            *s == self.shape_view(),
    {
        &self.shape
    }

    pub fn transform(&self) -> (t: &Transform)
        ensures
            *t == self.transform_view(),
    {
        &self.transform
    }

    /// The transform, to change it in place.
    pub fn transform_mut(&mut self) -> (t: &mut Transform)
        ensures
            *t == old(self).transform_view(),
            final(self).transform_view() == *final(t),
            final(self).shape_view() == old(self).shape_view(),
    {
        &mut self.transform
    }

    pub fn material(&self) -> (m: &Material)
        ensures
            *m == (Material {}),
    {
        &self.material
    }
}

} // verus!
