//! A ray against the plane `y = 0`.
use vstd::prelude::*;
use crate::algebra::unit_y;
use crate::hittable::HittableShape;
use crate::intersections::{on_object, Intersections};
use crate::measure::{PlaneReading, Reading, SurfaceReading};
use crate::object::Object;
use crate::scalar::{Scalar, EPSILON_BITS, ONE_BITS};
use crate::shapes::Plane;

verus! {

/// Whether the ray runs along the plane: its direction rises or falls by no
/// more than the machine epsilon.
pub open spec fn runs_along(reading: PlaneReading) -> bool {
    !Scalar::epsilon().less(reading.direction_y.absolute())
}

/// The distances at which a ray meets the plane: none where it runs along the
/// plane, else the one crossing as it was measured.
pub open spec fn plane_distances(reading: PlaneReading) -> Seq<Scalar> {
    if runs_along(reading) {
        Seq::empty()
    } else {
        seq![reading.crossing]
    }
}

impl Plane {
    /// The hits of a measured ray on the plane of `object`.
    pub fn hits<'a>(&self, reading: &PlaneReading, object: &'a Object) -> (xs: Intersections<'a>)
        ensures
            on_object(xs@, plane_distances(*reading), *object),
            xs@.len() == 0 <==> runs_along(*reading),
            xs@.len() <= 1,
    {
        let mut distances: Vec<Scalar> = Vec::new();
        if reading.direction_y.abs().gt(&Scalar { bits: EPSILON_BITS }) {
            distances.push(reading.crossing);
        }
        proof {
            assert(distances@ =~= plane_distances(*reading));
        }
        Intersections::from_distances(&distances, object)
    }
}

impl HittableShape for Plane {
    open spec fn fits(&self, reading: Reading) -> bool {
        reading is Plane
    }

    open spec fn distances(&self, reading: Reading) -> Seq<Scalar> {
        plane_distances(reading->Plane_0)
    }

    open spec fn normal_bits(&self, point: Seq<u64>, surface: SurfaceReading) -> Seq<u64> {
        seq![0u64, ONE_BITS, 0u64]
    }

    /// The hits that a reading against the plane gives.
    fn intersect<'a>(&self, reading: &Reading, object: &'a Object) -> (r: Option<Intersections<'a>>) {
        match reading {
            Reading::Plane(plane) => Some(self.hits(plane, object)),
            _ => None,
        }
    }

    /// The normal of the plane, the same at every point: (0, 1, 0).
    fn normal_at(&self, point: &glam::DVec3, surface: &SurfaceReading) -> (n: glam::DVec3) {
        unit_y()
    }
}

} // verus!
