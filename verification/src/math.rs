//! Vector, quaternion and matrix values for the scene graph.
//!
//! All numeric computation is delegated to the `glam` linear-algebra crate.
//! Its values are carried opaquely; what an operation returns is given a name
//! (an uninterpreted spec function), and the contracts of the transform and
//! camera code speak of those names.

use vstd::prelude::*;

verus! {

// ---------------------------------------------------------------------------
// glam's value types, declared so that Verus can carry them.
// ---------------------------------------------------------------------------

/// glam's 3-component vector, carried as an opaque value.
#[verifier::external_type_specification]
#[verifier::external_body]
pub struct ExVec3(glam::Vec3);

/// glam's quaternion, carried as an opaque value.
#[verifier::external_type_specification]
#[verifier::external_body]
pub struct ExQuat(glam::Quat);

/// glam's 3x3 column-major matrix, carried as an opaque value.
#[verifier::external_type_specification]
#[verifier::external_body]
pub struct ExMat3(glam::Mat3);

/// glam's 4x4 column-major matrix, carried as an opaque value.
#[verifier::external_type_specification]
#[verifier::external_body]
pub struct ExMat4(glam::Mat4);

// ---------------------------------------------------------------------------
// The constants the scene graph starts from.
//
// Each constant of glam gets a predicate that holds of the value it returns
// and of nothing else; `choose` then gives the value itself a name that
// contracts can use.
// ---------------------------------------------------------------------------

pub uninterp spec fn is_zero_vec3(v: glam::Vec3) -> bool;

/// The all-zero vector, `glam::Vec3::ZERO`.
pub open spec fn zero_vec3() -> glam::Vec3 {
    choose|v: glam::Vec3| is_zero_vec3(v)
}

/// Relies on glam's `Vec3::ZERO`: one fixed constant, the all-zero vector.
#[verifier::external_body]
pub(crate) fn vec3_zero() -> (r: glam::Vec3)
    ensures
        is_zero_vec3(r),
        r == zero_vec3(),
{
    glam::Vec3::ZERO
}

pub uninterp spec fn is_one_vec3(v: glam::Vec3) -> bool;

/// The all-one vector, `glam::Vec3::ONE`.
pub open spec fn one_vec3() -> glam::Vec3 {
    choose|v: glam::Vec3| is_one_vec3(v)
}

/// Relies on glam's `Vec3::ONE`: one fixed constant, the all-one vector.
#[verifier::external_body]
pub(crate) fn vec3_one() -> (r: glam::Vec3)
    ensures
        is_one_vec3(r),
        r == one_vec3(),
{
    glam::Vec3::ONE
}

pub uninterp spec fn is_x_axis(v: glam::Vec3) -> bool;

/// The unit x axis, `glam::Vec3::X`; the scene graph's "right" direction.
pub open spec fn x_axis() -> glam::Vec3 {
    choose|v: glam::Vec3| is_x_axis(v)
}

/// Relies on glam's `Vec3::X`: one fixed constant, the unit x axis.
#[verifier::external_body]
pub(crate) fn vec3_x() -> (r: glam::Vec3)
    ensures
        is_x_axis(r),
        r == x_axis(),
{
    glam::Vec3::X
}

pub uninterp spec fn is_y_axis(v: glam::Vec3) -> bool;

/// The unit y axis, `glam::Vec3::Y`; the scene graph's "up" direction.
pub open spec fn y_axis() -> glam::Vec3 {
    choose|v: glam::Vec3| is_y_axis(v)
}

/// Relies on glam's `Vec3::Y`: one fixed constant, the unit y axis.
#[verifier::external_body]
pub(crate) fn vec3_y() -> (r: glam::Vec3)
    ensures
        is_y_axis(r),
        r == y_axis(),
{
    glam::Vec3::Y
}

pub uninterp spec fn is_z_axis(v: glam::Vec3) -> bool;

/// The unit z axis, `glam::Vec3::Z`; the scene graph's "forward" direction.
pub open spec fn z_axis() -> glam::Vec3 {
    choose|v: glam::Vec3| is_z_axis(v)
}

/// Relies on glam's `Vec3::Z`: one fixed constant, the unit z axis.
#[verifier::external_body]
pub(crate) fn vec3_z() -> (r: glam::Vec3)
    ensures
        is_z_axis(r),
        r == z_axis(),
{
    glam::Vec3::Z
}

pub uninterp spec fn is_identity_quat(q: glam::Quat) -> bool;

/// The identity rotation, `glam::Quat::IDENTITY`.
pub open spec fn identity_quat() -> glam::Quat {
    choose|q: glam::Quat| is_identity_quat(q)
}

/// Relies on glam's `Quat::IDENTITY`: one fixed constant, the identity rotation.
#[verifier::external_body]
pub(crate) fn quat_identity() -> (r: glam::Quat)
    ensures
        is_identity_quat(r),
        r == identity_quat(),
{
    glam::Quat::IDENTITY
}

pub uninterp spec fn is_identity_mat4(m: glam::Mat4) -> bool;

/// The identity matrix, `glam::Mat4::IDENTITY`.
pub open spec fn identity_mat4() -> glam::Mat4 {
    choose|m: glam::Mat4| is_identity_mat4(m)
}

/// Relies on glam's `Mat4::IDENTITY`: one fixed constant, the identity matrix.
#[verifier::external_body]
pub(crate) fn mat4_identity() -> (r: glam::Mat4)
    ensures
        is_identity_mat4(r),
        r == identity_mat4(),
{
    glam::Mat4::IDENTITY
}

// ---------------------------------------------------------------------------
// The operations, each under a name that the contracts use.
//
// Every operation below is a pure function of its arguments: glam computes it
// from the components alone, the same way on every machine and in every call.
// ---------------------------------------------------------------------------

/// What `a + b` returns for 3-vectors: the componentwise sum.
pub uninterp spec fn vec3_sum_of(a: glam::Vec3, b: glam::Vec3) -> glam::Vec3;

/// Relies on glam's `Add` for `Vec3`: the componentwise sum of the arguments.
#[verifier::external_body]
pub(crate) fn vec3_add(a: glam::Vec3, b: glam::Vec3) -> (r: glam::Vec3)
    ensures
        r == vec3_sum_of(a, b),
{
    a + b
}

/// What `-v` returns for a 3-vector: the componentwise negation.
pub uninterp spec fn negated_of(v: glam::Vec3) -> glam::Vec3;

/// Relies on glam's `Neg` for `Vec3`: the componentwise negation of the argument.
#[verifier::external_body]
pub(crate) fn vec3_neg(v: glam::Vec3) -> (r: glam::Vec3)
    ensures
        r == negated_of(v),
{
    -v
}

/// What `Vec3::cross` returns: the cross product of the arguments.
pub uninterp spec fn cross_of(a: glam::Vec3, b: glam::Vec3) -> glam::Vec3;

/// Relies on glam's `Vec3::cross`: the cross product of the arguments.
#[verifier::external_body]
pub(crate) fn vec3_cross(a: glam::Vec3, b: glam::Vec3) -> (r: glam::Vec3)
    ensures
        r == cross_of(a, b),
{
    a.cross(b)
}

/// What `Vec3::normalize` returns: the argument scaled to length one
/// (componentwise non-finite values for a zero-length argument).
pub uninterp spec fn normalized_of(v: glam::Vec3) -> glam::Vec3;

/// Relies on glam's `Vec3::normalize`: the argument divided by its length.
#[verifier::external_body]
pub(crate) fn vec3_normalize(v: glam::Vec3) -> (r: glam::Vec3)
    ensures
        r == normalized_of(v),
{
    v.normalize()
}

/// What `q * v` returns: the vector rotated by the quaternion.
pub uninterp spec fn rotated_of(q: glam::Quat, v: glam::Vec3) -> glam::Vec3;

/// Relies on glam's `Mul<Vec3>` for `Quat`: the vector rotated by the quaternion.
#[verifier::external_body]
pub(crate) fn quat_rotate(q: glam::Quat, v: glam::Vec3) -> (r: glam::Vec3)
    ensures
        r == rotated_of(q, v),
{
    q * v
}

/// What `Mat3::from_cols` returns: the matrix with the given columns.
pub uninterp spec fn basis_mat_of(x: glam::Vec3, y: glam::Vec3, z: glam::Vec3) -> glam::Mat3;

/// Relies on glam's `Mat3::from_cols`: the 3x3 matrix whose columns are the arguments.
#[verifier::external_body]
pub(crate) fn mat3_from_cols(x: glam::Vec3, y: glam::Vec3, z: glam::Vec3) -> (r: glam::Mat3)
    ensures
        r == basis_mat_of(x, y, z),
{
    glam::Mat3::from_cols(x, y, z)
}

/// What `Quat::from_mat3` returns: the rotation of the given orthonormal basis.
pub uninterp spec fn quat_of_mat3(m: glam::Mat3) -> glam::Quat;

/// Relies on glam's `Quat::from_mat3`: the quaternion of a rotation matrix.
#[verifier::external_body]
pub(crate) fn quat_from_mat3(m: glam::Mat3) -> (r: glam::Quat)
    ensures
        r == quat_of_mat3(m),
{
    glam::Quat::from_mat3(&m)
}

/// What `Mat4::from_scale_rotation_translation` returns: the affine matrix
/// that scales first, then rotates, then translates.
pub uninterp spec fn local_matrix_of(
    scale: glam::Vec3,
    rotation: glam::Quat,
    translation: glam::Vec3,
) -> glam::Mat4;

/// Relies on glam's `Mat4::from_scale_rotation_translation`: the affine
/// transformation that applies the scale first, then the rotation, then the
/// translation.
#[verifier::external_body]
pub(crate) fn mat4_from_srt(
    scale: glam::Vec3,
    rotation: glam::Quat,
    translation: glam::Vec3,
) -> (r: glam::Mat4)
    ensures
        r == local_matrix_of(scale, rotation, translation),
{
    glam::Mat4::from_scale_rotation_translation(scale, rotation, translation)
}

/// What `Mat4::inverse` returns: the matrix inverse (meaningless components,
/// not an error, for a singular argument).
pub uninterp spec fn inverse_of(m: glam::Mat4) -> glam::Mat4;

/// Relies on glam's `Mat4::inverse`: the matrix inverse of the argument.
#[verifier::external_body]
pub(crate) fn mat4_inverse(m: glam::Mat4) -> (r: glam::Mat4)
    ensures
        r == inverse_of(m),
{
    m.inverse()
}

/// What `Mat4::transform_point3` returns: the matrix applied to the point,
/// with an implicit homogeneous coordinate of one.
pub uninterp spec fn transformed_point_of(m: glam::Mat4, p: glam::Vec3) -> glam::Vec3;

/// Relies on glam's `Mat4::transform_point3`: the matrix applied to the point
/// `(p, 1)`, truncated back to three components.
#[verifier::external_body]
pub(crate) fn mat4_transform_point3(m: glam::Mat4, p: glam::Vec3) -> (r: glam::Vec3)
    ensures
        r == transformed_point_of(m, p),
{
    m.transform_point3(p)
}

} // verus!
