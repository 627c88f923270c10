//! The vector, rotation and matrix values of `glam`, and the operations on
//! them that the engine calls.
//!
//! The three types are opaque to the verifier. What a value holds is named by
//! the patterns of its components, each in its one form: the bit pattern of
//! a number, and `NAN_BITS` for whatever is no number. Arithmetic leaves open
//! which pattern a not-a-number comes out with, so nothing here speaks of it.
//! Each operation below is a trusted declaration that says over those
//! patterns what `glam` computes. Where the result is a rearrangement of the
//! arguments it is written out; where it is rounded arithmetic it is given a
//! name of its own.
use vstd::prelude::*;
use crate::scalar::{Scalar, NEG_ONE_BITS, ONE_BITS};

verus! {

/// `glam::DVec3`: a vector of three double-precision numbers.
#[verifier::external_type_specification]
#[verifier::external_body]
pub struct ExDVec3(glam::DVec3);

/// `glam::DQuat`: a rotation, as a quaternion of four double-precision numbers.
#[verifier::external_type_specification]
#[verifier::external_body]
pub struct ExDQuat(glam::DQuat);

/// `glam::DMat4`: a matrix of four columns of four double-precision numbers.
#[verifier::external_type_specification]
#[verifier::external_body]
pub struct ExDMat4(glam::DMat4);

/// The patterns of the components of a vector, in the order x, y, z, each in
/// its one form.
pub uninterp spec fn vector_bits(v: glam::DVec3) -> Seq<u64>;

/// The patterns of the components of a rotation, in the order x, y, z, w,
/// each in its one form.
pub uninterp spec fn rotation_bits(q: glam::DQuat) -> Seq<u64>;

/// The patterns of the sixteen entries of a matrix, column after column, each
/// in its one form.
pub uninterp spec fn matrix_bits(m: glam::DMat4) -> Seq<u64>;

/// The components of the sum of two vectors.
pub uninterp spec fn sum_bits(a: Seq<u64>, b: Seq<u64>) -> Seq<u64>;

/// The components of the vector scaled to length one.
pub uninterp spec fn normalized_bits(v: Seq<u64>) -> Seq<u64>;

/// The dot product of two vectors.
pub uninterp spec fn dot_bits(a: Seq<u64>, b: Seq<u64>) -> u64;

/// The components of the rotation that applies `b` first and `a` after it.
pub uninterp spec fn composed_rotation_bits(a: Seq<u64>, b: Seq<u64>) -> Seq<u64>;

/// The components of a vector turned by a rotation.
pub uninterp spec fn rotated_bits(q: Seq<u64>, v: Seq<u64>) -> Seq<u64>;

/// The entries of the matrix of a rotation.
pub uninterp spec fn rotation_matrix_bits(q: Seq<u64>) -> Seq<u64>;

/// The entries of the product of two matrices.
pub uninterp spec fn product_bits(a: Seq<u64>, b: Seq<u64>) -> Seq<u64>;

/// The entries of the inverse of a matrix.
pub uninterp spec fn inverse_bits(m: Seq<u64>) -> Seq<u64>;

/// The components of the image of a point under an affine matrix.
pub uninterp spec fn point_image_bits(m: Seq<u64>, p: Seq<u64>) -> Seq<u64>;

/// The components of the image of a direction under an affine matrix: as for a
/// point, without the translation.
pub uninterp spec fn direction_image_bits(m: Seq<u64>, v: Seq<u64>) -> Seq<u64>;

/// The pattern of the number with the opposite sign, in its one form.
pub open spec fn flipped(bits: u64) -> u64 {
    (Scalar { bits }).negated().canonical().bits
}

/// The entries of the identity matrix.
pub open spec fn identity_matrix_bits() -> Seq<u64> {
    seq![
        ONE_BITS, 0, 0, 0,
        0, ONE_BITS, 0, 0,
        0, 0, ONE_BITS, 0,
        0, 0, 0, ONE_BITS,
    ]
}

/// The entries of the matrix that moves every point by `t`.
pub open spec fn translation_matrix_bits(t: Seq<u64>) -> Seq<u64> {
    seq![
        ONE_BITS, 0, 0, 0,
        0, ONE_BITS, 0, 0,
        0, 0, ONE_BITS, 0,
        t[0], t[1], t[2], ONE_BITS,
    ]
}

/// The entries of the matrix that stretches each axis by the component of `s`.
pub open spec fn scale_matrix_bits(s: Seq<u64>) -> Seq<u64> {
    seq![
        s[0], 0, 0, 0,
        0, s[1], 0, 0,
        0, 0, s[2], 0,
        0, 0, 0, ONE_BITS,
    ]
}

/// The entries of a matrix with rows and columns exchanged.
pub open spec fn transposed_bits(m: Seq<u64>) -> Seq<u64> {
    Seq::new(16, |i: int| m[4 * (i % 4) + i / 4])
}

/// A vector's components where `keep` says so, and the number 0 elsewhere.
pub open spec fn kept_bits(v: Seq<u64>, keep_x: bool, keep_y: bool, keep_z: bool) -> Seq<u64> {
    seq![
        if keep_x { v[0] } else { 0 },
        if keep_y { v[1] } else { 0 },
        if keep_z { v[2] } else { 0 },
    ]
}

/// `DVec3::ZERO`: all three components are the number 0.
#[verifier::external_body]
pub(crate) fn zero_vector() -> (r: glam::DVec3)
    ensures
        vector_bits(r) == seq![0u64, 0u64, 0u64],
{
    glam::DVec3::ZERO
}

/// `DVec3::ONE`: all three components are the number 1.
#[verifier::external_body]
pub(crate) fn ones_vector() -> (r: glam::DVec3)
    ensures
        vector_bits(r) == seq![ONE_BITS, ONE_BITS, ONE_BITS],
{
    glam::DVec3::ONE
}

/// `DVec3::X`: the vector (1, 0, 0).
#[verifier::external_body]
pub(crate) fn unit_x() -> (r: glam::DVec3)
    ensures
        vector_bits(r) == seq![ONE_BITS, 0u64, 0u64],
{
    glam::DVec3::X
}

/// `DVec3::Y`: the vector (0, 1, 0).
#[verifier::external_body]
pub(crate) fn unit_y() -> (r: glam::DVec3)
    ensures
        vector_bits(r) == seq![0u64, ONE_BITS, 0u64],
{
    glam::DVec3::Y
}

/// `DVec3::Z`: the vector (0, 0, 1).
#[verifier::external_body]
pub(crate) fn unit_z() -> (r: glam::DVec3)
    ensures
        vector_bits(r) == seq![0u64, 0u64, ONE_BITS],
{
    glam::DVec3::Z
}

/// `DVec3::NEG_X`: the vector (-1, 0, 0).
#[verifier::external_body]
pub(crate) fn neg_unit_x() -> (r: glam::DVec3)
    ensures
        vector_bits(r) == seq![NEG_ONE_BITS, 0u64, 0u64],
{
    glam::DVec3::NEG_X
}

/// `DVec3::NEG_Y`: the vector (0, -1, 0).
#[verifier::external_body]
pub(crate) fn neg_unit_y() -> (r: glam::DVec3)
    ensures
        vector_bits(r) == seq![0u64, NEG_ONE_BITS, 0u64],
{
    glam::DVec3::NEG_Y
}

/// `DVec3::NEG_Z`: the vector (0, 0, -1).
#[verifier::external_body]
pub(crate) fn neg_unit_z() -> (r: glam::DVec3)
    ensures
        vector_bits(r) == seq![0u64, 0u64, NEG_ONE_BITS],
{
    glam::DVec3::NEG_Z
}

/// `Neg` on `DVec3`: each component with its sign flipped.
#[verifier::external_body]
pub(crate) fn negate(v: &glam::DVec3) -> (r: glam::DVec3)
    ensures
        vector_bits(r) == seq![
            flipped(vector_bits(*v)[0]),
            flipped(vector_bits(*v)[1]),
            flipped(vector_bits(*v)[2]),
        ],
{
    -*v
}

/// `Add` on `DVec3`: the sum, component by component.
#[verifier::external_body]
pub(crate) fn add_vectors(a: &glam::DVec3, b: &glam::DVec3) -> (r: glam::DVec3)
    ensures
        vector_bits(r) == sum_bits(vector_bits(*a), vector_bits(*b)),
{
    *a + *b
}

/// `DVec3::normalize`: the vector times the reciprocal of its length.
#[verifier::external_body]
pub(crate) fn normalize(v: &glam::DVec3) -> (r: glam::DVec3)
    ensures
        vector_bits(r) == normalized_bits(vector_bits(*v)),
{
    v.normalize()
}

/// `DVec3::dot`, handed out as a bit pattern: in its one form it is the named
/// product.
#[verifier::external_body]
pub(crate) fn dot(a: &glam::DVec3, b: &glam::DVec3) -> (r: Scalar)
    ensures
        r.canonical().bits == dot_bits(vector_bits(*a), vector_bits(*b)),
{
    Scalar { bits: a.dot(*b).to_bits() }
}

/// `DVec3::select` against `DVec3::ZERO`: the components that the mask keeps,
/// and the number 0 in place of the others.
#[verifier::external_body]
pub(crate) fn keep_components(v: &glam::DVec3, keep_x: bool, keep_y: bool, keep_z: bool) -> (r:
    glam::DVec3)
    ensures
        vector_bits(r) == kept_bits(vector_bits(*v), keep_x, keep_y, keep_z),
{
    glam::DVec3::select(glam::BVec3::new(keep_x, keep_y, keep_z), *v, glam::DVec3::ZERO)
}

/// The fields `x`, `y` and `z` of a `DVec3`, each handed out as a bit pattern:
/// in their one form they are the vector's components.
#[verifier::external_body]
pub(crate) fn components(v: &glam::DVec3) -> (r: (Scalar, Scalar, Scalar))
    ensures
        r.0.canonical().bits == vector_bits(*v)[0],
        r.1.canonical().bits == vector_bits(*v)[1],
        r.2.canonical().bits == vector_bits(*v)[2],
{
    (
        Scalar { bits: v.x.to_bits() },
        Scalar { bits: v.y.to_bits() },
        Scalar { bits: v.z.to_bits() },
    )
}

/// `DQuat::IDENTITY`: the rotation (0, 0, 0, 1), which turns nothing.
#[verifier::external_body]
pub(crate) fn identity_rotation() -> (r: glam::DQuat)
    ensures
        rotation_bits(r) == seq![0u64, 0u64, 0u64, ONE_BITS],
{
    glam::DQuat::IDENTITY
}

/// `Mul` on two `DQuat`: the rotation that applies `b` first and `a` after it.
#[verifier::external_body]
pub(crate) fn compose_rotations(a: &glam::DQuat, b: &glam::DQuat) -> (r: glam::DQuat)
    ensures
        rotation_bits(r) == composed_rotation_bits(rotation_bits(*a), rotation_bits(*b)),
{
    *a * *b
}

/// `Mul` of a `DQuat` and a `DVec3`: the vector turned by the rotation.
#[verifier::external_body]
pub(crate) fn rotate_vector(q: &glam::DQuat, v: &glam::DVec3) -> (r: glam::DVec3)
    ensures
        vector_bits(r) == rotated_bits(rotation_bits(*q), vector_bits(*v)),
{
    *q * *v
}

/// `DMat4::IDENTITY`: 1 on the diagonal and 0 elsewhere.
#[verifier::external_body]
pub(crate) fn identity_matrix() -> (r: glam::DMat4)
    ensures
        matrix_bits(r) == identity_matrix_bits(),
{
    glam::DMat4::IDENTITY
}

/// `DMat4::from_translation`: the identity with the vector in its last column.
#[verifier::external_body]
pub(crate) fn translation_matrix(t: &glam::DVec3) -> (r: glam::DMat4)
    ensures
        matrix_bits(r) == translation_matrix_bits(vector_bits(*t)),
{
    glam::DMat4::from_translation(*t)
}

/// `DMat4::from_quat`: the matrix of the rotation.
#[verifier::external_body]
pub(crate) fn rotation_matrix(q: &glam::DQuat) -> (r: glam::DMat4)
    ensures
        matrix_bits(r) == rotation_matrix_bits(rotation_bits(*q)),
{
    glam::DMat4::from_quat(*q)
}

/// `DMat4::from_scale`: the vector on the diagonal, 1 in the last place.
#[verifier::external_body]
pub(crate) fn scale_matrix(s: &glam::DVec3) -> (r: glam::DMat4)
    ensures
        matrix_bits(r) == scale_matrix_bits(vector_bits(*s)),
{
    glam::DMat4::from_scale(*s)
}

/// `Mul` on two `DMat4`: the matrix product.
#[verifier::external_body]
pub(crate) fn multiply(a: &glam::DMat4, b: &glam::DMat4) -> (r: glam::DMat4)
    ensures
        matrix_bits(r) == product_bits(matrix_bits(*a), matrix_bits(*b)),
{
    *a * *b
}

/// `DMat4::inverse`. It returns for every matrix; of one that has no inverse
/// the entries are not finite.
#[verifier::external_body]
pub(crate) fn invert(m: &glam::DMat4) -> (r: glam::DMat4)
    ensures
        matrix_bits(r) == inverse_bits(matrix_bits(*m)),
{
    m.inverse()
}

/// `DMat4::transpose`: the same entries, rows and columns exchanged.
#[verifier::external_body]
pub(crate) fn transpose(m: &glam::DMat4) -> (r: glam::DMat4)
    ensures
        matrix_bits(r) == transposed_bits(matrix_bits(*m)),
{
    m.transpose()
}

/// `DMat4::transform_point3`: the image of a point.
#[verifier::external_body]
pub(crate) fn transform_point(m: &glam::DMat4, p: &glam::DVec3) -> (r: glam::DVec3)
    ensures
        vector_bits(r) == point_image_bits(matrix_bits(*m), vector_bits(*p)),
{
    m.transform_point3(*p)
}

/// `DMat4::transform_vector3`: the image of a direction.
#[verifier::external_body]
pub(crate) fn transform_direction(m: &glam::DMat4, v: &glam::DVec3) -> (r: glam::DVec3)
    ensures
        vector_bits(r) == direction_image_bits(matrix_bits(*m), vector_bits(*v)),
{
    m.transform_vector3(*v)
}

} // verus!
