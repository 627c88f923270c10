//! A colour, by its red, green and blue parts.
use vstd::prelude::*;
use crate::scalar::{Scalar, ONE_BITS};

verus! {

/// A colour. Each part is a number; 0 is none of it and 1 is all of it.
#[derive(Debug, Clone, Copy, PartialEq, Eq, Structural)]
pub struct Color {
    pub r: Scalar,
    pub g: Scalar,
    pub b: Scalar,
}

impl Color {
    /// The colour of no light: (0, 0, 0).
    pub open spec fn spec_black() -> Color {
        Color { r: Scalar { bits: 0 }, g: Scalar { bits: 0 }, b: Scalar { bits: 0 } }
    }

    /// Pure red: (1, 0, 0).
    pub open spec fn spec_red() -> Color {
        Color { r: Scalar { bits: ONE_BITS }, g: Scalar { bits: 0 }, b: Scalar { bits: 0 } }
    }

    pub fn new(r: Scalar, g: Scalar, b: Scalar) -> (c: Self)
        ensures
            c == (Color { r, g, b }),
    {
        Color { r, g, b }
    }

    #[verifier::when_used_as_spec(spec_black)]
    pub fn black() -> (c: Self)
        ensures
            c == Color::spec_black(),
    {
        Color { r: Scalar { bits: 0 }, g: Scalar { bits: 0 }, b: Scalar { bits: 0 } }
    }

    #[verifier::when_used_as_spec(spec_red)]
    pub fn red() -> (c: Self)
        ensures
            c == Color::spec_red(),
    {
        Color { r: Scalar { bits: ONE_BITS }, g: Scalar { bits: 0 }, b: Scalar { bits: 0 } }
    }
}

} // verus!
