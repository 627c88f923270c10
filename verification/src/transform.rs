//! The pose of an object and the three matrices derived from it.
//!
//! A pose is a translation, a rotation and a scale. The matrix of the pose is
//! translation times rotation times scale; beside it the transform keeps the
//! inverse of that matrix and the transpose of the inverse. The three are a
//! cache: every change of the pose marks it stale, and `update_matrix` brings
//! it up to date again.
use vstd::prelude::*;
use crate::algebra::{
    add_vectors, compose_rotations, composed_rotation_bits, identity_matrix, identity_matrix_bits,
    identity_rotation, inverse_bits, invert,
    matrix_bits, multiply, neg_unit_x, neg_unit_y, neg_unit_z, ones_vector, product_bits,
    rotate_vector, rotated_bits, rotation_bits, rotation_matrix, rotation_matrix_bits, scale_matrix,
    scale_matrix_bits, sum_bits, translation_matrix, translation_matrix_bits, transpose,
    transposed_bits, unit_x, unit_y, unit_z, vector_bits, zero_vector,
};
use crate::scalar::{NEG_ONE_BITS, ONE_BITS};

verus! {

/// The entries of the matrix of a pose, given the components of its parts.
pub open spec fn pose_matrix_bits(translation: Seq<u64>, rotation: Seq<u64>, scale: Seq<u64>) -> Seq<u64> {
    product_bits(
        product_bits(translation_matrix_bits(translation), rotation_matrix_bits(rotation)),
        scale_matrix_bits(scale),
    )
}

/// The components of the translation that moves nothing.
pub open spec fn no_translation_bits() -> Seq<u64> {
    seq![0u64, 0u64, 0u64]
}

/// The components of the rotation that turns nothing.
pub open spec fn no_rotation_bits() -> Seq<u64> {
    seq![0u64, 0u64, 0u64, ONE_BITS]
}

/// The components of the scale that stretches nothing.
pub open spec fn no_scale_bits() -> Seq<u64> {
    seq![ONE_BITS, ONE_BITS, ONE_BITS]
}

#[derive(Debug, PartialEq, Clone, Copy)]
pub struct Transform {
    translation: glam::DVec3,
    rotation: glam::DQuat,
    scale: glam::DVec3,
    matrix: glam::DMat4,
    inverse_matrix: glam::DMat4,
    inverse_transpose_matrix: glam::DMat4,
    dirty: bool,
}

impl Transform {
    /// The components of the translation.
    pub closed spec fn translation_view(self) -> Seq<u64> {
        vector_bits(self.translation)
    }

    /// The components of the rotation.
    pub closed spec fn rotation_view(self) -> Seq<u64> {
        rotation_bits(self.rotation)
    }

    /// The components of the scale.
    pub closed spec fn scale_view(self) -> Seq<u64> {
        vector_bits(self.scale)
    }

    /// The entries of the cached matrix.
    pub closed spec fn matrix_view(self) -> Seq<u64> {
        matrix_bits(self.matrix)
    }

    /// The entries of the cached inverse.
    pub closed spec fn inverse_view(self) -> Seq<u64> {
        matrix_bits(self.inverse_matrix)
    }

    /// The entries of the cached transpose of the inverse.
    pub closed spec fn inverse_transpose_view(self) -> Seq<u64> {
        matrix_bits(self.inverse_transpose_matrix)
    }

    /// Whether the pose has changed since the cache was last computed.
    pub closed spec fn stale(self) -> bool {
        self.dirty
    }

    /// The cache holds what the pose gives.
    pub open spec fn current(self) -> bool {
        &&& self.matrix_view() == pose_matrix_bits(
            self.translation_view(),
            self.rotation_view(),
            self.scale_view(),
        )
        &&& self.inverse_view() == inverse_bits(self.matrix_view())
        &&& self.inverse_transpose_view() == transposed_bits(self.inverse_view())
    }

    /// The pose changes nothing and the cache holds three identity matrices:
    /// the state of a transform that has never been changed.
    pub open spec fn untouched(self) -> bool {
        &&& self.translation_view() == no_translation_bits()
        &&& self.rotation_view() == no_rotation_bits()
        &&& self.scale_view() == no_scale_bits()
        &&& self.identity_cache()
    }

    /// A cache that is not marked stale is valid: it is what `update_matrix`
    /// computed from the pose, or the transform has never been changed.
    pub open spec fn coherent(self) -> bool {
        !self.stale() ==> self.current() || self.untouched()
    }

    /// Both hold the same pose.
    pub open spec fn same_pose(self, other: Transform) -> bool {
        &&& self.translation_view() == other.translation_view()
        &&& self.rotation_view() == other.rotation_view()
        &&& self.scale_view() == other.scale_view()
    }

    /// Both hold the same cached matrices.
    pub open spec fn same_cache(self, other: Transform) -> bool {
        &&& self.matrix_view() == other.matrix_view()
        &&& self.inverse_view() == other.inverse_view()
        &&& self.inverse_transpose_view() == other.inverse_transpose_view()
    }

    /// The cache holds three identity matrices.
    pub open spec fn identity_cache(self) -> bool {
        &&& self.matrix_view() == identity_matrix_bits()
        &&& self.inverse_view() == identity_matrix_bits()
        &&& self.inverse_transpose_view() == identity_matrix_bits()
    }

    #[verifier::type_invariant]
    spec fn inv(self) -> bool {
        self.coherent()
    }

    /// The pose that leaves everything where it is. Its three matrices are
    /// the identity, and it is not marked stale.
    pub fn new() -> (t: Self)
        ensures
            t.untouched(),
            !t.stale(),
    {
        Transform {
            translation: zero_vector(),
            rotation: identity_rotation(),
            scale: ones_vector(),
            matrix: identity_matrix(),
            inverse_matrix: identity_matrix(),
            inverse_transpose_matrix: identity_matrix(),
            dirty: false,
        }
    }

    fn derive_matrices(translation: &glam::DVec3, rotation: &glam::DQuat, scale: &glam::DVec3) -> (r: (
        glam::DMat4,
        glam::DMat4,
        glam::DMat4,
    ))
        ensures
            matrix_bits(r.0) == pose_matrix_bits(
                vector_bits(*translation),
                rotation_bits(*rotation),
                vector_bits(*scale),
            ),
            matrix_bits(r.1) == inverse_bits(matrix_bits(r.0)),
            matrix_bits(r.2) == transposed_bits(matrix_bits(r.1)),
    {
        let t = translation_matrix(translation);
        let r = rotation_matrix(rotation);
        let s = scale_matrix(scale);
        let tr = multiply(&t, &r);
        let matrix = multiply(&tr, &s);
        let inverse = invert(&matrix);
        let inverse_transpose = transpose(&inverse);
        (matrix, inverse, inverse_transpose)
    }

    /// The identity moved by `translation`; its cache is stale.
    pub fn from_translation(translation: glam::DVec3) -> (t: Self)
        ensures
            t.translation_view() == vector_bits(translation),
            t.rotation_view() == no_rotation_bits(),
            t.scale_view() == no_scale_bits(),
            t.identity_cache(),
            t.stale(),
    {
        Self::new().with_translation(translation)
    }

    /// The identity turned by `rotation`; its cache is stale.
    pub fn from_rotation(rotation: glam::DQuat) -> (t: Self)
        ensures
            t.rotation_view() == rotation_bits(rotation),
            t.translation_view() == no_translation_bits(),
            t.scale_view() == no_scale_bits(),
            t.identity_cache(),
            t.stale(),
    {
        Self::new().with_rotation(rotation)
    }

    /// The identity stretched by `scale`; its cache is stale.
    pub fn from_scale(scale: glam::DVec3) -> (t: Self)
        ensures
            t.scale_view() == vector_bits(scale),
            t.translation_view() == no_translation_bits(),
            t.rotation_view() == no_rotation_bits(),
            t.identity_cache(),
            t.stale(),
    {
        Self::new().with_scale(scale)
    }

    /// The same transform with another translation; its cache is stale.
    pub fn with_translation(self, translation: glam::DVec3) -> (t: Self)
        ensures
            t.translation_view() == vector_bits(translation),
            t.rotation_view() == self.rotation_view(),
            t.scale_view() == self.scale_view(),
            t.same_cache(self),
            t.stale(),
    {
        Transform {
            translation,
            rotation: self.rotation,
            scale: self.scale,
            matrix: self.matrix,
            inverse_matrix: self.inverse_matrix,
            inverse_transpose_matrix: self.inverse_transpose_matrix,
            dirty: true,
        }
    }

    /// The same transform with another rotation; its cache is stale.
    pub fn with_rotation(self, rotation: glam::DQuat) -> (t: Self)
        ensures
            t.rotation_view() == rotation_bits(rotation),
            t.translation_view() == self.translation_view(),
            t.scale_view() == self.scale_view(),
            t.same_cache(self),
            t.stale(),
    {
        Transform {
            translation: self.translation,
            rotation,
            scale: self.scale,
            matrix: self.matrix,
            inverse_matrix: self.inverse_matrix,
            inverse_transpose_matrix: self.inverse_transpose_matrix,
            dirty: true,
        }
    }

    /// The same transform with another scale; its cache is stale.
    pub fn with_scale(self, scale: glam::DVec3) -> (t: Self)
        ensures
            t.scale_view() == vector_bits(scale),
            t.translation_view() == self.translation_view(),
            t.rotation_view() == self.rotation_view(),
            t.same_cache(self),
            t.stale(),
    {
        Transform {
            translation: self.translation,
            rotation: self.rotation,
            scale,
            matrix: self.matrix,
            inverse_matrix: self.inverse_matrix,
            inverse_transpose_matrix: self.inverse_transpose_matrix,
            dirty: true,
        }
    }

    /// Moves the pose by `translation` and marks the cache stale.
    pub fn translate(&mut self, translation: glam::DVec3)
        ensures
            final(self).translation_view() == sum_bits(
                old(self).translation_view(),
                vector_bits(translation),
            ),
            final(self).rotation_view() == old(self).rotation_view(),
            final(self).scale_view() == old(self).scale_view(),
            final(self).same_cache(*old(self)),
            final(self).stale(),
    {
        let moved = add_vectors(&self.translation, &translation);
        *self = self.with_translation(moved);
    }

    /// Turns the pose by `rotation`, applied after the rotation it has, and
    /// marks the cache stale.
    pub fn rotate(&mut self, rotation: glam::DQuat)
        ensures
            final(self).rotation_view() == composed_rotation_bits(
                rotation_bits(rotation),
                old(self).rotation_view(),
            ),
            final(self).translation_view() == old(self).translation_view(),
            final(self).scale_view() == old(self).scale_view(),
            final(self).same_cache(*old(self)),
            final(self).stale(),
    {
        let turned = compose_rotations(&rotation, &self.rotation);
        *self = self.with_rotation(turned);
    }

    /// The x axis as the rotation turns it.
    pub fn left(&self) -> (v: glam::DVec3)
        ensures
            vector_bits(v) == rotated_bits(self.rotation_view(), seq![ONE_BITS, 0u64, 0u64]),
    {
        rotate_vector(&self.rotation, &unit_x())
    }

    /// The negative x axis as the rotation turns it.
    pub fn right(&self) -> (v: glam::DVec3)
        ensures
            vector_bits(v) == rotated_bits(self.rotation_view(), seq![NEG_ONE_BITS, 0u64, 0u64]),
    {
        rotate_vector(&self.rotation, &neg_unit_x())
    }

    /// The y axis as the rotation turns it.
    pub fn up(&self) -> (v: glam::DVec3)
        ensures
            vector_bits(v) == rotated_bits(self.rotation_view(), seq![0u64, ONE_BITS, 0u64]),
    {
        rotate_vector(&self.rotation, &unit_y())
    }

    /// The negative y axis as the rotation turns it.
    pub fn down(&self) -> (v: glam::DVec3)
        ensures
            vector_bits(v) == rotated_bits(self.rotation_view(), seq![0u64, NEG_ONE_BITS, 0u64]),
    {
        rotate_vector(&self.rotation, &neg_unit_y())
    }

    /// The z axis as the rotation turns it.
    pub fn forward(&self) -> (v: glam::DVec3)
        ensures
            vector_bits(v) == rotated_bits(self.rotation_view(), seq![0u64, 0u64, ONE_BITS]),
    {
        rotate_vector(&self.rotation, &unit_z())
    }

    /// The negative z axis as the rotation turns it.
    pub fn backward(&self) -> (v: glam::DVec3)
        ensures
            vector_bits(v) == rotated_bits(self.rotation_view(), seq![0u64, 0u64, NEG_ONE_BITS]),
    {
        rotate_vector(&self.rotation, &neg_unit_z())
    }

    /// Whether the pose has changed since the cache was last computed.
    pub fn is_dirty(&self) -> (b: bool)
        ensures
            b == self.stale(),
    {
        self.dirty
    }

    /// The cached matrix.
    pub fn matrix(&self) -> (m: glam::DMat4)
        ensures
            matrix_bits(m) == self.matrix_view(),
    {
        self.matrix
    }

    /// The cached inverse.
    pub fn inverse_matrix(&self) -> (m: glam::DMat4)
        ensures
            matrix_bits(m) == self.inverse_view(),
    {
        self.inverse_matrix
    }

    /// The cached transpose of the inverse.
    pub fn inverse_transpose_matrix(&self) -> (m: glam::DMat4)
        ensures
            matrix_bits(m) == self.inverse_transpose_view(),
    {
        self.inverse_transpose_matrix
    }

    /// Computes the three matrices from the pose and clears the mark.
    pub fn update_matrix(&mut self)
        ensures
            final(self).same_pose(*old(self)),
            final(self).current(),
            !final(self).stale(),
    {
        let (matrix, inverse_matrix, inverse_transpose_matrix) = Self::derive_matrices(
            &self.translation,
            &self.rotation,
            &self.scale,
        );
        *self = Transform {
            translation: self.translation,
            rotation: self.rotation,
            scale: self.scale,
            matrix,
            inverse_matrix,
            inverse_transpose_matrix,
            dirty: false,
        };
    }
}

impl Default for Transform {
    fn default() -> (t: Self)
        ensures
            t.untouched(),
            !t.stale(),
    {
        Transform::new()
    }
}

/// The cache follows from the pose alone: two transforms with the same pose,
/// both up to date, hold the same three matrices.
pub proof fn same_pose_gives_same_cache(a: Transform, b: Transform)
    requires
        a.same_pose(b),
        a.current(),
        b.current(),
    ensures
        a.same_cache(b),
{
}

} // verus!
