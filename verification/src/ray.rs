//! A ray: the point it starts from and the direction it travels in.
use vstd::prelude::*;
use crate::algebra::{
    direction_image_bits, matrix_bits, point_image_bits, transform_direction, transform_point,
    vector_bits,
};

verus! {

/// A ray. Its points are `origin + t * direction`, one for each number `t`.
/// The direction need not have length one.
#[derive(Debug, Clone, Copy, PartialEq)]
pub struct Ray {
    pub origin: glam::DVec3,
    pub direction: glam::DVec3,
}

impl Ray {
    pub fn new(origin: glam::DVec3, direction: glam::DVec3) -> (r: Self)
        ensures
            r == (Ray { origin, direction }),
    {
        Ray { origin, direction }
    }

    /// The ray as the matrix maps it: the origin as a point, the direction
    /// without the matrix's translation.
    pub fn transform(&self, matrix: &glam::DMat4) -> (r: Self)
        ensures
            vector_bits(r.origin) == point_image_bits(matrix_bits(*matrix), vector_bits(self.origin)),
            vector_bits(r.direction) == direction_image_bits(
                matrix_bits(*matrix),
                vector_bits(self.direction),
            ),
    {
        Ray {
            origin: transform_point(matrix, &self.origin),
            direction: transform_direction(matrix, &self.direction),
        }
    }
}

} // verus!
