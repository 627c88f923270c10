//! A ray against a cylinder: its wall between the two bounds, and the discs
//! that close its ends.
use vstd::prelude::*;
use crate::algebra::{components, keep_components, kept_bits, neg_unit_y, unit_y, vector_bits};
use crate::hittable::HittableShape;
use crate::intersections::{on_object, Intersections};
use crate::measure::{CapReading, CylinderReading, Reading, SurfaceReading, WallReading};
use crate::object::Object;
use crate::scalar::{Scalar, EPSILON_BITS, NEG_ONE_BITS, ONE_BITS};
use crate::shapes::Cylinder;

verus! {

/// Whether the ray's point in the plane of an end lies on the disc there.
pub open spec fn on_cap(cap: CapReading) -> bool {
    cap.radial.at_most(Scalar::one())
}

/// Whether the ends can be hit at all: the cylinder is closed and the ray
/// rises or falls by the machine epsilon or more.
pub open spec fn caps_in_reach(cylinder: Cylinder, reading: CylinderReading) -> bool {
    cylinder.closed && !reading.direction_y.absolute().less(Scalar::epsilon())
}

/// The distances at which a ray meets the ends: the lower end first.
pub open spec fn cap_distances(cylinder: Cylinder, reading: CylinderReading) -> Seq<Scalar> {
    if !caps_in_reach(cylinder, reading) {
        Seq::empty()
    } else {
        (if on_cap(reading.lower_cap) {
            seq![reading.lower_cap.t]
        } else {
            Seq::empty()
        }) + (if on_cap(reading.upper_cap) {
            seq![reading.upper_cap.t]
        } else {
            Seq::empty()
        })
    }
}

/// Whether a height lies between the two bounds, both excluded.
pub open spec fn within_bounds(cylinder: Cylinder, height: Scalar) -> bool {
    cylinder.min.less(height) && height.less(cylinder.max)
}

/// The nearer of the two roots on the wall.
pub open spec fn near_wall(reading: CylinderReading) -> WallReading {
    if reading.second_wall.t.less(reading.first_wall.t) {
        reading.second_wall
    } else {
        reading.first_wall
    }
}

/// The farther of the two roots on the wall.
pub open spec fn far_wall(reading: CylinderReading) -> WallReading {
    if reading.second_wall.t.less(reading.first_wall.t) {
        reading.first_wall
    } else {
        reading.second_wall
    }
}

/// The distances at which a ray meets the wall between the bounds: the nearer
/// root first.
pub open spec fn wall_distances(cylinder: Cylinder, reading: CylinderReading) -> Seq<Scalar> {
    (if within_bounds(cylinder, near_wall(reading).height) {
        seq![near_wall(reading).t]
    } else {
        Seq::empty()
    }) + (if within_bounds(cylinder, far_wall(reading).height) {
        seq![far_wall(reading).t]
    } else {
        Seq::empty()
    })
}

/// Whether the ray runs along the axis of the cylinder, so that it cannot
/// cross the wall.
pub open spec fn runs_along_axis(reading: CylinderReading) -> bool {
    reading.a.absolute().less(Scalar::epsilon())
}

/// The distances at which a ray meets the cylinder. A ray along the axis
/// meets the ends only. Any other ray whose discriminant is below zero meets
/// nothing, the ends included. Else the hits on the wall come first and those
/// on the ends after them.
pub open spec fn cylinder_distances(cylinder: Cylinder, reading: CylinderReading) -> Seq<Scalar> {
    if runs_along_axis(reading) {
        cap_distances(cylinder, reading)
    } else if reading.discriminant.less(Scalar::zero()) {
        Seq::empty()
    } else {
        wall_distances(cylinder, reading) + cap_distances(cylinder, reading)
    }
}

/// The components of the cylinder's normal at a point: (0, 1, 0) on the upper
/// end, (0, -1, 0) on the lower end, and on the wall the point's own x and z
/// with 0 between them.
pub open spec fn cylinder_normal_bits(reading: SurfaceReading, point: Seq<u64>) -> Seq<u64> {
    let y = Scalar { bits: point[1] };
    if reading.radial.less(Scalar::one()) && reading.upper_limit.at_most(y) {
        seq![0u64, ONE_BITS, 0u64]
    } else if reading.radial.less(Scalar::one()) && y.at_most(reading.lower_limit) {
        seq![0u64, NEG_ONE_BITS, 0u64]
    } else {
        kept_bits(point, true, false, true)
    }
}

impl Cylinder {
    /// Whether the ray's point in the plane of an end lies on the disc there.
    pub fn check_cap(cap: &CapReading) -> (b: bool)
        ensures
            b == on_cap(*cap),
    {
        cap.radial.le(&Scalar { bits: ONE_BITS })
    }

    /// The distances of the hits on the two ends.
    pub fn intersect_caps(&self, reading: &CylinderReading) -> (distances: Vec<Scalar>)
        ensures
            distances@ == cap_distances(*self, *reading),
    {
        let mut distances: Vec<Scalar> = Vec::new();
        if !self.closed || reading.direction_y.abs().lt(&Scalar { bits: EPSILON_BITS }) {
            proof {
                assert(distances@ =~= cap_distances(*self, *reading));
            }
            return distances;
        }
        if Cylinder::check_cap(&reading.lower_cap) {
            distances.push(reading.lower_cap.t);
        }
        if Cylinder::check_cap(&reading.upper_cap) {
            distances.push(reading.upper_cap.t);
        }
        proof {
            assert(distances@ =~= cap_distances(*self, *reading));
        }
        distances
    }

    /// The hits of a measured ray on the cylinder of `object`.
    pub fn hits<'a>(&self, reading: &CylinderReading, object: &'a Object) -> (xs: Intersections<'a>)
        ensures
            on_object(xs@, cylinder_distances(*self, *reading), *object),
            xs@.len() <= 4,
            !self.closed ==> xs@.len() <= 2,
            !runs_along_axis(*reading) && reading.discriminant.less(Scalar::zero()) ==> xs@.len()
                == 0,
    {
        if reading.a.abs().lt(&Scalar { bits: EPSILON_BITS }) {
            let caps = self.intersect_caps(reading);
            return Intersections::from_distances(&caps, object);
        }
        if reading.discriminant.lt(&Scalar { bits: 0 }) {
            let nothing: Vec<Scalar> = Vec::new();
            proof {
                assert(nothing@ =~= cylinder_distances(*self, *reading));
            }
            return Intersections::from_distances(&nothing, object);
        }
        let near: WallReading;
        let far: WallReading;
        if reading.first_wall.t.gt(&reading.second_wall.t) {
            near = reading.second_wall;
            far = reading.first_wall;
        } else {
            near = reading.first_wall;
            far = reading.second_wall;
        }
        let mut distances: Vec<Scalar> = Vec::new();
        if self.min.lt(&near.height) && near.height.lt(&self.max) {
            distances.push(near.t);
        }
        if self.min.lt(&far.height) && far.height.lt(&self.max) {
            distances.push(far.t);
        }
        proof {
            assert(distances@ =~= wall_distances(*self, *reading));
        }
        let mut caps = self.intersect_caps(reading);
        distances.append(&mut caps);
        Intersections::from_distances(&distances, object)
    }

    /// The normal at a measured point of the cylinder's surface.
    pub fn normal(&self, reading: &SurfaceReading, point: &glam::DVec3) -> (n: glam::DVec3)
        ensures
            vector_bits(n) == cylinder_normal_bits(*reading, vector_bits(*point)),
    {
        let (_x, y, _z) = components(point);
        let y = y.canonicalized();
        let inside = reading.radial.lt(&Scalar { bits: ONE_BITS });
        if inside && y.ge(&reading.upper_limit) {
            unit_y()
        } else if inside && y.le(&reading.lower_limit) {
            neg_unit_y()
        } else {
            keep_components(point, true, false, true)
        }
    }
}

impl HittableShape for Cylinder {
    open spec fn fits(&self, reading: Reading) -> bool {
        reading is Cylinder
    }

    open spec fn distances(&self, reading: Reading) -> Seq<Scalar> {
        cylinder_distances(*self, reading->Cylinder_0)
    }

    open spec fn normal_bits(&self, point: Seq<u64>, surface: SurfaceReading) -> Seq<u64> {
        cylinder_normal_bits(surface, point)
    }

    /// The hits that a reading against the cylinder gives.
    fn intersect<'a>(&self, reading: &Reading, object: &'a Object) -> (r: Option<Intersections<'a>>) {
        match reading {
            Reading::Cylinder(cylinder) => Some(self.hits(cylinder, object)),
            _ => None,
        }
    }

    /// The normal at a measured point of the cylinder's surface.
    fn normal_at(&self, point: &glam::DVec3, surface: &SurfaceReading) -> (n: glam::DVec3) {
        self.normal(surface, point)
    }
}

} // verus!
