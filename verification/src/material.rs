//! What a surface is made of. The engine carries it and does not read it.
use vstd::prelude::*;

verus! {

#[derive(Debug, PartialEq, Clone, Copy)]
pub struct Material {}

impl Default for Material {
    fn default() -> (m: Self)
        ensures
            m == (Material {}),
    {
        Material {}
    }
}

} // verus!
