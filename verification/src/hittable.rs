//! What can be hit by a ray: a shape in its own space, and an object in the
//! world.
use vstd::prelude::*;
use crate::algebra::{
    direction_image_bits, normalize, normalized_bits, point_image_bits, transform_direction,
    transform_point, vector_bits,
};
use crate::intersection::Intersection;
use crate::intersections::{on_object, Intersections};
use crate::measure::{Reading, SurfaceReading};
use crate::object::Object;
use crate::ray::Ray;
use crate::scalar::Scalar;
use crate::shapes::Shape;

verus! {

/// A shape that a ray, given in the shape's own space, can be tested against.
pub trait HittableShape {
    /// Whether the reading is one of a ray against this kind of shape.
    spec fn fits(&self, reading: Reading) -> bool;

    /// The distances at which the shape is hit, as a reading that fits gives
    /// them, in the order in which they are recorded.
    spec fn distances(&self, reading: Reading) -> Seq<Scalar>;

    /// The components of the shape's normal at a point of its surface.
    spec fn normal_bits(&self, point: Seq<u64>, surface: SurfaceReading) -> Seq<u64>;

    /// The hits that the reading of a ray gives, recorded as hits on `object`,
    /// or `None` where the reading is of another kind of shape.
    fn intersect<'a>(&self, reading: &Reading, object: &'a Object) -> (r: Option<Intersections<'a>>)
        ensures
            r.is_some() <==> self.fits(*reading),
            r.is_some() ==> on_object(r.unwrap()@, self.distances(*reading), *object),
    ;

    /// The shape's normal at a point of its surface, in the shape's own space.
    /// Only a cylinder reads `surface`, which is measured of that point.
    fn normal_at(&self, point: &glam::DVec3, surface: &SurfaceReading) -> (n: glam::DVec3)
        ensures
            vector_bits(n) == self.normal_bits(vector_bits(*point), *surface),
    ;
}

/// Something in the world that a ray, given in the world's space, can be
/// tested against.
pub trait Hittable {
    /// Whether the reading is one of a ray against this thing.
    spec fn world_fits(&self, reading: Reading) -> bool;

    /// The distances at which the thing is hit, along the ray as it was given
    /// in the world.
    spec fn world_distances(&self, reading: Reading) -> Seq<Scalar>;

    /// Whether `xs` is the thing's answer to the reading: hits on the thing
    /// itself, at the distances that the reading gives, in their order.
    spec fn answers<'a>(&self, xs: Seq<Intersection<'a>>, reading: Reading) -> bool;

    /// The components of the normal at a point of the world.
    spec fn world_normal_bits(&self, point: Seq<u64>, surface: SurfaceReading) -> Seq<u64>;

    /// The hits that the reading gives, or `None` where the reading is of
    /// another kind of shape. The reading is that of `local_ray`: the ray in
    /// the thing's own space. The distances are not rescaled on the way back:
    /// a point of the ray keeps its parameter when the ray is taken there.
    fn intersect<'a>(&'a self, reading: &Reading) -> (r: Option<Intersections<'a>>)
        ensures
            r.is_some() <==> self.world_fits(*reading),
            r.is_some() ==> self.answers(r.unwrap()@, *reading),
    ;

    /// The normal at a point of the thing's surface, in the world's space and
    /// of length one. `surface` is measured of `local_point`.
    fn normal_at(&self, point: glam::DVec3, surface: &SurfaceReading) -> (n: glam::DVec3)
        ensures
            vector_bits(n) == self.world_normal_bits(vector_bits(point), *surface),
    ;
}

impl HittableShape for Shape {
    open spec fn fits(&self, reading: Reading) -> bool {
        match *self {
            Shape::Sphere(sphere) => sphere.fits(reading),
            Shape::Plane(plane) => plane.fits(reading),
            Shape::Cube(cube) => cube.fits(reading),
            Shape::Cylinder(cylinder) => cylinder.fits(reading),
        }
    }

    open spec fn distances(&self, reading: Reading) -> Seq<Scalar> {
        match *self {
            Shape::Sphere(sphere) => sphere.distances(reading),
            Shape::Plane(plane) => plane.distances(reading),
            Shape::Cube(cube) => cube.distances(reading),
            Shape::Cylinder(cylinder) => cylinder.distances(reading),
        }
    }

    open spec fn normal_bits(&self, point: Seq<u64>, surface: SurfaceReading) -> Seq<u64> {
        match *self {
            Shape::Sphere(sphere) => sphere.normal_bits(point, surface),
            Shape::Plane(plane) => plane.normal_bits(point, surface),
            Shape::Cube(cube) => cube.normal_bits(point, surface),
            Shape::Cylinder(cylinder) => cylinder.normal_bits(point, surface),
        }
    }

    fn intersect<'a>(&self, reading: &Reading, object: &'a Object) -> (r: Option<Intersections<'a>>) {
        match self {
            Shape::Sphere(sphere) => sphere.intersect(reading, object),
            Shape::Plane(plane) => plane.intersect(reading, object),
            Shape::Cube(cube) => cube.intersect(reading, object),
            Shape::Cylinder(cylinder) => cylinder.intersect(reading, object),
        }
    }

    fn normal_at(&self, point: &glam::DVec3, surface: &SurfaceReading) -> (n: glam::DVec3) {
        match self {
            Shape::Sphere(sphere) => sphere.normal_at(point, surface),
            Shape::Plane(plane) => plane.normal_at(point, surface),
            Shape::Cube(cube) => cube.normal_at(point, surface),
            Shape::Cylinder(cylinder) => cylinder.normal_at(point, surface),
        }
    }
}

impl Hittable for Object {
    open spec fn world_fits(&self, reading: Reading) -> bool {
        self.shape_view().fits(reading)
    }

    /// The distances that the object's shape decides.
    open spec fn world_distances(&self, reading: Reading) -> Seq<Scalar> {
        self.shape_view().distances(reading)
    }

    open spec fn answers<'a>(&self, xs: Seq<Intersection<'a>>, reading: Reading) -> bool {
        on_object(xs, self.world_distances(reading), *self)
    }

    /// The point is taken into the shape's space by the cached inverse; the
    /// shape answers with its normal there; that normal is taken back by the
    /// cached transpose of the inverse, as a direction, and scaled to length one.
    open spec fn world_normal_bits(&self, point: Seq<u64>, surface: SurfaceReading) -> Seq<u64> {
        normalized_bits(
            direction_image_bits(
                self.transform_view().inverse_transpose_view(),
                self.shape_view().normal_bits(
                    point_image_bits(self.transform_view().inverse_view(), point),
                    surface,
                ),
            ),
        )
    }

    fn intersect<'a>(&'a self, reading: &Reading) -> (r: Option<Intersections<'a>>) {
        self.shape().intersect(reading, self)
    }

    fn normal_at(&self, point: glam::DVec3, surface: &SurfaceReading) -> (n: glam::DVec3) {
        let local_point = self.local_point(&point);
        let local_normal = self.shape().normal_at(&local_point, surface);
        let inverse_transpose = self.transform().inverse_transpose_matrix();
        let world_normal = transform_direction(&inverse_transpose, &local_normal);
        normalize(&world_normal)
    }
}

impl Object {
    /// The ray as the object's shape sees it: taken into the shape's space by
    /// the cached inverse of the object's transform. This is the ray that is
    /// to be measured against the shape. A point of the ray keeps its
    /// parameter, so a distance found in the shape's space is the distance
    /// along the ray in the world.
    pub fn local_ray(&self, ray: &Ray) -> (local: Ray)
        ensures
            vector_bits(local.origin) == point_image_bits(
                self.transform_view().inverse_view(),
                vector_bits(ray.origin),
            ),
            vector_bits(local.direction) == direction_image_bits(
                self.transform_view().inverse_view(),
                vector_bits(ray.direction),
            ),
    {
        let inverse = self.transform().inverse_matrix();
        ray.transform(&inverse)
    }

    /// A point of the world as the object's shape sees it: taken into the
    /// shape's space by the cached inverse of the object's transform. This is
    /// the point of which the surface of a cylinder is to be measured.
    pub fn local_point(&self, point: &glam::DVec3) -> (local: glam::DVec3)
        ensures
            vector_bits(local) == point_image_bits(
                self.transform_view().inverse_view(),
                vector_bits(*point),
            ),
    {
        let inverse = self.transform().inverse_matrix();
        transform_point(&inverse, point)
    }
}

} // verus!
