//! What is measured of a ray against a shape.
//!
//! The engine decides; it does not calculate. Where a decision rests on a
//! quantity that takes arithmetic on single numbers to find (a discriminant,
//! a root, a ratio), the quantity is measured outside the engine, in IEEE-754
//! binary64 arithmetic, and handed over as a reading. The engine says which
//! ray is to be measured (`Object::local_ray`) and what each field of a
//! reading is; what it decides from a reading is proved for every reading,
//! whatever numbers it carries.
use vstd::prelude::*;
use crate::scalar::Scalar;

verus! {

/// A ray against the unit sphere. With `o` the ray's origin and `d` its
/// direction, `a = d.d`, `b = 2 d.o` and `c = o.o - 1`.
#[derive(Debug, Clone, Copy, PartialEq)]
pub struct SphereReading {
    /// `b * b - 4 * a * c`.
    pub discriminant: Scalar,
    /// `(-b - sqrt(discriminant)) * (1 / (2 * a))`.
    pub first_root: Scalar,
    /// `(-b + sqrt(discriminant)) * (1 / (2 * a))`.
    pub second_root: Scalar,
}

/// A ray against the plane `y = 0`.
#[derive(Debug, Clone, Copy, PartialEq)]
pub struct PlaneReading {
    /// The y component of the ray's direction.
    pub direction_y: Scalar,
    /// `-origin.y / direction.y`.
    pub crossing: Scalar,
}

/// One axis of a ray against the pair of cube faces across that axis.
#[derive(Debug, Clone, Copy, PartialEq)]
pub struct AxisReading {
    /// The ray's direction along the axis.
    pub direction: Scalar,
    /// `-1 - origin`: the way to the face at -1.
    pub low_numerator: Scalar,
    /// `1 - origin`: the way to the face at 1.
    pub high_numerator: Scalar,
    /// `low_numerator / direction`.
    pub low_ratio: Scalar,
    /// `high_numerator / direction`.
    pub high_ratio: Scalar,
}

/// A ray against the cube, axis by axis.
#[derive(Debug, Clone, Copy, PartialEq)]
pub struct CubeReading {
    pub x: AxisReading,
    pub y: AxisReading,
    pub z: AxisReading,
}

/// A ray against the plane of one end of a cylinder.
#[derive(Debug, Clone, Copy, PartialEq)]
pub struct CapReading {
    /// `(height - origin.y) / direction.y`, for the height of that end.
    pub t: Scalar,
    /// `x * x + z * z` at the point of the ray at `t`.
    pub radial: Scalar,
}

/// One root of a ray against the wall of a cylinder.
#[derive(Debug, Clone, Copy, PartialEq)]
pub struct WallReading {
    /// The root.
    pub t: Scalar,
    /// `origin.y + t * direction.y`: the height of the ray's point at the root.
    pub height: Scalar,
}

/// A ray against a cylinder. With `o` the ray's origin and `d` its direction,
/// `a = d.x * d.x + d.z * d.z`, `b = 2 * o.x * d.x + 2 * o.z * d.z` and
/// `c = o.x * o.x + o.z * o.z - 1`.
#[derive(Debug, Clone, Copy, PartialEq)]
pub struct CylinderReading {
    /// `a`.
    pub a: Scalar,
    /// `b * b - 4 * a * c`.
    pub discriminant: Scalar,
    /// The root `(-b - sqrt(discriminant)) / (2 * a)`.
    pub first_wall: WallReading,
    /// The root `(-b + sqrt(discriminant)) / (2 * a)`.
    pub second_wall: WallReading,
    /// The y component of the ray's direction.
    pub direction_y: Scalar,
    /// The end at the height `min`.
    pub lower_cap: CapReading,
    /// The end at the height `max`.
    pub upper_cap: CapReading,
}

/// A point against a cylinder, to tell its ends from its wall. The other
/// shapes do not read it.
#[derive(Debug, Clone, Copy, PartialEq)]
pub struct SurfaceReading {
    /// `x * x + z * z` of the point.
    pub radial: Scalar,
    /// `max - epsilon`, with the machine epsilon.
    pub upper_limit: Scalar,
    /// `min + epsilon`.
    pub lower_limit: Scalar,
}

/// A ray against a shape of one of the four kinds.
#[derive(Debug, Clone, Copy, PartialEq)]
pub enum Reading {
    Sphere(SphereReading),
    Plane(PlaneReading),
    Cube(CubeReading),
    Cylinder(CylinderReading),
}

/// What is wrong with the readings that were handed over for a scene.
#[derive(Debug, Clone, Copy, PartialEq, Eq, Structural)]
pub enum ReadingError {
    /// There is not one reading for every object.
    WrongCount {
        /// The number of objects in the scene.
        objects: usize,
        /// The number of readings that were handed over.
        readings: usize,
    },
    /// The reading for the object at this place is of another kind of shape.
    WrongKind {
        /// The place of the object in the scene.
        object: usize,
    },
}

} // verus!
