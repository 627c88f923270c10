//! A ray against the unit sphere.
use vstd::prelude::*;
use crate::algebra::{normalize, normalized_bits};
use crate::hittable::HittableShape;
use crate::intersections::{on_object, Intersections};
use crate::measure::{Reading, SphereReading, SurfaceReading};
use crate::object::Object;
use crate::scalar::Scalar;
use crate::shapes::Sphere;

verus! {

/// The distances at which a ray meets the sphere: none where the discriminant
/// is below zero, else the two roots as they were measured.
pub open spec fn sphere_distances(reading: SphereReading) -> Seq<Scalar> {
    if reading.discriminant.less(Scalar::zero()) {
        Seq::empty()
    } else {
        seq![reading.first_root, reading.second_root]
    }
}

impl Sphere {
    /// The hits of a measured ray on the sphere of `object`.
    pub fn hits<'a>(&self, reading: &SphereReading, object: &'a Object) -> (xs: Intersections<'a>)
        ensures
            on_object(xs@, sphere_distances(*reading), *object),
            xs@.len() == 0 <==> reading.discriminant.less(Scalar::zero()),
    {
        let mut distances: Vec<Scalar> = Vec::new();
        if !reading.discriminant.lt(&Scalar { bits: 0 }) {
            distances.push(reading.first_root);
            distances.push(reading.second_root);
        }
        proof {
            assert(distances@ =~= sphere_distances(*reading));
        }
        Intersections::from_distances(&distances, object)
    }
}

impl HittableShape for Sphere {
    open spec fn fits(&self, reading: Reading) -> bool {
        reading is Sphere
    }

    open spec fn distances(&self, reading: Reading) -> Seq<Scalar> {
        sphere_distances(reading->Sphere_0)
    }

    open spec fn normal_bits(&self, point: Seq<u64>, surface: SurfaceReading) -> Seq<u64> {
        normalized_bits(point)
    }

    /// The hits that a reading against the sphere gives.
    fn intersect<'a>(&self, reading: &Reading, object: &'a Object) -> (r: Option<Intersections<'a>>) {
        match reading {
            Reading::Sphere(sphere) => Some(self.hits(sphere, object)),
            _ => None,
        }
    }

    /// The normal at a point of the sphere: the point itself, scaled to length one.
    fn normal_at(&self, point: &glam::DVec3, surface: &SurfaceReading) -> (n: glam::DVec3) {
        normalize(point)
    }
}

} // verus!
