//! A ray against the cube: the slab test, axis by axis.
use vstd::prelude::*;
use crate::algebra::{components, keep_components, kept_bits};
use crate::hittable::HittableShape;
use crate::intersections::{on_object, Intersections};
use crate::measure::{AxisReading, CubeReading, Reading, SurfaceReading};
use crate::object::Object;
use crate::scalar::{Scalar, EPSILON_BITS};
use crate::shapes::Cube;

verus! {

/// Whether the ray moves along the axis at all: by the machine epsilon or more.
pub open spec fn moves_along(axis: AxisReading) -> bool {
    Scalar::epsilon().at_most(axis.direction.absolute())
}

/// Where the ray would cross the face at -1: the measured ratio, or, for a ray
/// that does not move along the axis, the way to the face times infinity.
pub open spec fn low_crossing(axis: AxisReading) -> Scalar {
    if moves_along(axis) {
        axis.low_ratio
    } else {
        axis.low_numerator.by_infinity()
    }
}

/// Where the ray would cross the face at 1.
pub open spec fn high_crossing(axis: AxisReading) -> Scalar {
    if moves_along(axis) {
        axis.high_ratio
    } else {
        axis.high_numerator.by_infinity()
    }
}

/// Where the ray enters the slab between the two faces of an axis: the lesser
/// of its two crossings.
pub open spec fn slab_entry(axis: AxisReading) -> Scalar {
    if high_crossing(axis).less(low_crossing(axis)) {
        high_crossing(axis)
    } else {
        low_crossing(axis)
    }
}

/// Where the ray leaves the slab: the greater of its two crossings.
pub open spec fn slab_exit(axis: AxisReading) -> Scalar {
    if high_crossing(axis).less(low_crossing(axis)) {
        low_crossing(axis)
    } else {
        high_crossing(axis)
    }
}

/// Where the ray has entered all three slabs: the last of the three entries.
pub open spec fn cube_entry(reading: CubeReading) -> Scalar {
    slab_entry(reading.x).larger(slab_entry(reading.y).larger(slab_entry(reading.z)))
}

/// Where the ray leaves the first of the three slabs.
pub open spec fn cube_exit(reading: CubeReading) -> Scalar {
    slab_exit(reading.x).smaller(slab_exit(reading.y).smaller(slab_exit(reading.z)))
}

/// The distances at which a ray meets the cube: none where it has left one
/// slab before it has entered all three, else entry and exit.
pub open spec fn cube_distances(reading: CubeReading) -> Seq<Scalar> {
    if cube_exit(reading).less(cube_entry(reading)) {
        Seq::empty()
    } else {
        seq![cube_entry(reading), cube_exit(reading)]
    }
}

/// The coordinate that is largest without its sign, of the three of a point.
pub open spec fn largest_extent(x: Scalar, y: Scalar, z: Scalar) -> Scalar {
    x.absolute().larger(y.absolute().larger(z.absolute()))
}

/// The components of the cube's normal at a point: the coordinate that is
/// largest without its sign stays, with its sign, and the other two are 0.
/// Of coordinates equally large the first in the order x, y, z stays.
pub open spec fn cube_normal_bits(point: Seq<u64>) -> Seq<u64> {
    let x = Scalar { bits: point[0] };
    let y = Scalar { bits: point[1] };
    let z = Scalar { bits: point[2] };
    let extent = largest_extent(x, y, z);
    if extent.equals(x.absolute()) {
        kept_bits(point, true, false, false)
    } else if extent.equals(y.absolute()) {
        kept_bits(point, false, true, false)
    } else {
        kept_bits(point, false, false, true)
    }
}

impl Cube {
    /// Entry into and exit from the slab of one axis.
    pub fn check_axis(axis: &AxisReading) -> (span: (Scalar, Scalar))
        ensures
            span.0 == slab_entry(*axis),
            span.1 == slab_exit(*axis),
    {
        let low: Scalar;
        let high: Scalar;
        if axis.direction.abs().ge(&Scalar { bits: EPSILON_BITS }) {
            low = axis.low_ratio;
            high = axis.high_ratio;
        } else {
            low = axis.low_numerator.times_infinity();
            high = axis.high_numerator.times_infinity();
        }
        if low.gt(&high) {
            (high, low)
        } else {
            (low, high)
        }
    }

    /// The hits of a measured ray on the cube of `object`.
    pub fn hits<'a>(&self, reading: &CubeReading, object: &'a Object) -> (xs: Intersections<'a>)
        ensures
            on_object(xs@, cube_distances(*reading), *object),
            xs@.len() == 0 <==> cube_exit(*reading).less(cube_entry(*reading)),
            xs@.len() == 0 || xs@.len() == 2,
            xs@.len() == 2 && !cube_entry(*reading).nan() && !cube_exit(*reading).nan()
                ==> xs@[0].time().at_most(xs@[1].time()),
    {
        let x = Cube::check_axis(&reading.x);
        let y = Cube::check_axis(&reading.y);
        let z = Cube::check_axis(&reading.z);
        let entry = x.0.max(&y.0.max(&z.0));
        let exit = x.1.min(&y.1.min(&z.1));
        let mut distances: Vec<Scalar> = Vec::new();
        if !entry.gt(&exit) {
            distances.push(entry);
            distances.push(exit);
        }
        proof {
            assert(distances@ =~= cube_distances(*reading));
        }
        Intersections::from_distances(&distances, object)
    }
}

impl HittableShape for Cube {
    open spec fn fits(&self, reading: Reading) -> bool {
        reading is Cube
    }

    open spec fn distances(&self, reading: Reading) -> Seq<Scalar> {
        cube_distances(reading->Cube_0)
    }

    open spec fn normal_bits(&self, point: Seq<u64>, surface: SurfaceReading) -> Seq<u64> {
        cube_normal_bits(point)
    }

    /// The hits that a reading against the cube gives.
    fn intersect<'a>(&self, reading: &Reading, object: &'a Object) -> (r: Option<Intersections<'a>>) {
        match reading {
            Reading::Cube(cube) => Some(self.hits(cube, object)),
            _ => None,
        }
    }

    /// The normal at a point of the cube's surface.
    fn normal_at(&self, point: &glam::DVec3, surface: &SurfaceReading) -> (n: glam::DVec3) {
        let (x, y, z) = components(point);
        let x = x.canonicalized();
        let y = y.canonicalized();
        let z = z.canonicalized();
        let extent = x.abs().max(&y.abs().max(&z.abs()));
        if extent.same_number(&x.abs()) {
            keep_components(point, true, false, false)
        } else if extent.same_number(&y.abs()) {
            keep_components(point, false, true, false)
        } else {
            keep_components(point, false, false, true)
        }
    }
}

} // verus!
