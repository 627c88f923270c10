//! The primitive shapes. Each is given in its own space: of unit size, about
//! the origin. Where it stands in the world is the business of the object that
//! holds it.
use vstd::prelude::*;
use crate::scalar::Scalar;

verus! {

/// The closed set of shapes that the engine can intersect.
#[derive(Debug, PartialEq)]
pub enum Shape {
    Sphere(Sphere),
    Plane(Plane),
    Cube(Cube),
    Cylinder(Cylinder),
}

/// The sphere of radius 1 about the origin.
#[derive(Debug, PartialEq)]
pub struct Sphere {}

/// The plane of all points whose y is 0.
#[derive(Debug, PartialEq)]
pub struct Plane {}

/// The cube whose corners are at -1 and 1 on every axis.
#[derive(Debug, PartialEq)]
pub struct Cube {}

/// The cylinder of radius 1 about the y axis, between the heights `min` and
/// `max`, both excluded. Where `closed` is set, a disc closes it at either end.
#[derive(Debug, PartialEq)]
pub struct Cylinder {
    pub min: Scalar,
    pub max: Scalar,
    pub closed: bool,
}

impl Sphere {
    pub fn new() -> (s: Self)
        ensures
            s == (Sphere {}),
    {
        Sphere {}
    }
}

impl Default for Sphere {
    fn default() -> (s: Self)
        ensures
            s == (Sphere {}),
    {
        Sphere {}
    }
}

impl Plane {
    pub fn new() -> (p: Self)
        ensures
            p == (Plane {}),
    {
        Plane {}
    }
}

impl Default for Plane {
    fn default() -> (p: Self)
        ensures
            p == (Plane {}),
    {
        Plane {}
    }
}

impl Cube {
    pub fn new() -> (c: Self)
        ensures
            c == (Cube {}),
    {
        Cube {}
    }
}

impl Default for Cube {
    fn default() -> (c: Self)
        ensures
            c == (Cube {}),
    {
        Cube {}
    }
}

impl Cylinder {
    /// The open cylinder whose two bounds are both the number 0, so that no
    /// height lies between them.
    pub fn new() -> (c: Self)
        ensures
            c == (Cylinder { min: Scalar::zero(), max: Scalar::zero(), closed: false }),
    {
        Cylinder { min: Scalar { bits: 0 }, max: Scalar { bits: 0 }, closed: false }
    }
}

impl Default for Cylinder {
    fn default() -> (c: Self)
        ensures
            c == (Cylinder { min: Scalar::zero(), max: Scalar::zero(), closed: false }),
    {
        Cylinder::new()
    }
}

} // verus!
pub mod sphere;
pub mod plane;
pub mod cube;
pub mod cylinder;
