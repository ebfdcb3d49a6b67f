//! A local transform: position, rotation and scale, with a lazily cached
//! local-to-world matrix guarded by a dirty flag.

use vstd::prelude::*;

use crate::math::{
    basis_mat_of, cross_of, identity_mat4, identity_quat, inverse_of, local_matrix_of,
    mat3_from_cols, mat4_from_srt, mat4_identity, mat4_inverse, mat4_transform_point3, negated_of,
    normalized_of, one_vec3, quat_from_mat3, quat_identity, quat_of_mat3, quat_rotate, rotated_of,
    transformed_point_of,
    vec3_add, vec3_cross, vec3_neg, vec3_normalize, vec3_one, vec3_sum_of, vec3_x, vec3_y, vec3_z,
    vec3_zero, x_axis, y_axis, z_axis, zero_vec3,
};

verus! {

/// The coordinate frame a command speaks of.
#[derive(Clone, Copy, Debug)]
pub enum Space {
    Local,
    World,
}

/// Position, rotation and scale, with a cached local-to-world matrix.
///
/// The invariant of the cache: whenever `dirty` is false, `matrix` equals the
/// matrix derived from the current position, rotation and scale. Every setter
/// that changes one of the three re-arms `dirty` instead of recomputing.
#[derive(Clone, Copy, Debug)]
pub struct Transform {
    position: glam::Vec3,
    rotation: glam::Quat,
    scale: glam::Vec3,
    matrix: glam::Mat4,
    dirty: bool,
}

impl Transform {
    /// The stored position.
    pub closed spec fn spec_position(self) -> glam::Vec3 {
        self.position
    }

    /// The stored rotation.
    pub closed spec fn spec_rotation(self) -> glam::Quat {
        self.rotation
    }

    /// The stored scale.
    pub closed spec fn spec_scale(self) -> glam::Vec3 {
        self.scale
    }

    /// The cached matrix, meaningful only while `spec_dirty()` is false.
    pub closed spec fn spec_matrix(self) -> glam::Mat4 {
        self.matrix
    }

    /// Whether the cached matrix is stale.
    pub closed spec fn spec_dirty(self) -> bool {
        self.dirty
    }

    /// The matrix this transform derives: the scale applied first, then the
    /// rotation, then the translation.
    pub open spec fn spec_local_to_world(self) -> glam::Mat4 {
        local_matrix_of(self.spec_scale(), self.spec_rotation(), self.spec_position())
    }

    /// The caching invariant: a clean cache holds the derived matrix.
    pub open spec fn wf(self) -> bool {
        !self.spec_dirty() ==> self.spec_matrix() == self.spec_local_to_world()
    }

    /// A transform at the origin, unrotated, with unit scale.
    pub fn default() -> (r: Transform)
        ensures
            r.wf(),
            r.spec_position() == zero_vec3(),
            r.spec_rotation() == identity_quat(),
            r.spec_scale() == one_vec3(),
            r.spec_dirty(),
    {
        Transform {
            position: vec3_zero(),
            rotation: quat_identity(),
            scale: vec3_one(),
            matrix: mat4_identity(),
            dirty: true,
        }
    }

    fn update_matrix(&mut self)
        ensures
            final(self).spec_position() == old(self).spec_position(),
            final(self).spec_rotation() == old(self).spec_rotation(),
            final(self).spec_scale() == old(self).spec_scale(),
            final(self).spec_matrix() == old(self).spec_local_to_world(),
            !final(self).spec_dirty(),
            final(self).wf(),
    {
        self.matrix = mat4_from_srt(self.scale, self.rotation, self.position);
        self.dirty = false;
    }

    /// The matrix taking local coordinates to the parent's frame, recomputed
    /// here if a setter left the cache stale.
    pub fn get_local_to_world_matrix(&mut self) -> (r: glam::Mat4)
        requires
            old(self).wf(),
        ensures
            r == old(self).spec_local_to_world(),
            final(self).spec_position() == old(self).spec_position(),
            final(self).spec_rotation() == old(self).spec_rotation(),
            final(self).spec_scale() == old(self).spec_scale(),
            final(self).spec_matrix() == r,
            !final(self).spec_dirty(),
            final(self).wf(),
    {
        if self.dirty {
            self.update_matrix();
        }
        self.matrix
    }

    /// The inverse of the local-to-world matrix. No singularity check is
    /// made: a scale with a zero component yields meaningless components.
    pub fn get_world_to_local_matrix(&mut self) -> (r: glam::Mat4)
        requires
            old(self).wf(),
        ensures
            r == inverse_of(old(self).spec_local_to_world()),
            final(self).spec_position() == old(self).spec_position(),
            final(self).spec_rotation() == old(self).spec_rotation(),
            final(self).spec_scale() == old(self).spec_scale(),
            !final(self).spec_dirty(),
            final(self).wf(),
    {
        let m = self.get_local_to_world_matrix();
        mat4_inverse(m)
    }

    /// The stored position.
    pub fn get_local_position(&self) -> (r: glam::Vec3)
        ensures
            r == self.spec_position(),
    {
        self.position
    }

    /// Overwrite the position and mark the cache stale.
    pub fn set_local_position(&mut self, position: glam::Vec3)
        ensures
            final(self).spec_position() == position,
            final(self).spec_rotation() == old(self).spec_rotation(),
            final(self).spec_scale() == old(self).spec_scale(),
            final(self).spec_dirty(),
            final(self).wf(),
    {
        self.position = position;
        self.dirty = true;
    }

    /// The stored rotation.
    pub fn get_local_rotation(&self) -> (r: glam::Quat)
        ensures
            r == self.spec_rotation(),
    {
        self.rotation
    }

    /// Overwrite the rotation and mark the cache stale.
    pub fn set_local_rotation(&mut self, rotation: glam::Quat)
        ensures
            final(self).spec_rotation() == rotation,
            final(self).spec_position() == old(self).spec_position(),
            final(self).spec_scale() == old(self).spec_scale(),
            final(self).spec_dirty(),
            final(self).wf(),
    {
        self.rotation = rotation;
        self.dirty = true;
    }

    /// The stored scale.
    pub fn get_local_scale(&self) -> (r: glam::Vec3)
        ensures
            r == self.spec_scale(),
    {
        self.scale
    }

    /// Overwrite the scale and mark the cache stale.
    pub fn set_local_scale(&mut self, scale: glam::Vec3)
        ensures
            final(self).spec_scale() == scale,
            final(self).spec_position() == old(self).spec_position(),
            final(self).spec_rotation() == old(self).spec_rotation(),
            final(self).spec_dirty(),
            final(self).wf(),
    {
        self.scale = scale;
        self.dirty = true;
    }

    /// Move the position by the given delta and mark the cache stale.
    pub fn translate(&mut self, delta_pos: glam::Vec3)
        ensures
            final(self).spec_position() == vec3_sum_of(old(self).spec_position(), delta_pos),
            final(self).spec_rotation() == old(self).spec_rotation(),
            final(self).spec_scale() == old(self).spec_scale(),
            final(self).spec_dirty(),
            final(self).wf(),
    {
        self.position = vec3_add(self.position, delta_pos);
        self.dirty = true;
    }

    /// The unit x axis rotated into this transform's frame.
    pub fn get_right(&self) -> (r: glam::Vec3)
        ensures
            r == normalized_of(rotated_of(self.spec_rotation(), x_axis())),
    {
        let ax = vec3_x();
        vec3_normalize(quat_rotate(self.rotation, ax))
    }

    /// The negated unit x axis rotated into this transform's frame.
    pub fn get_left(&self) -> (r: glam::Vec3)
        ensures
            r == normalized_of(rotated_of(self.spec_rotation(), negated_of(x_axis()))),
    {
        let ax = vec3_neg(vec3_x());
        vec3_normalize(quat_rotate(self.rotation, ax))
    }

    /// The unit y axis rotated into this transform's frame.
    pub fn get_up(&self) -> (r: glam::Vec3)
        ensures
            r == normalized_of(rotated_of(self.spec_rotation(), y_axis())),
    {
        let ax = vec3_y();
        vec3_normalize(quat_rotate(self.rotation, ax))
    }

    /// The negated unit y axis rotated into this transform's frame.
    pub fn get_down(&self) -> (r: glam::Vec3)
        ensures
            r == normalized_of(rotated_of(self.spec_rotation(), negated_of(y_axis()))),
    {
        let ax = vec3_neg(vec3_y());
        vec3_normalize(quat_rotate(self.rotation, ax))
    }

    /// The unit z axis rotated into this transform's frame.
    pub fn get_forward(&self) -> (r: glam::Vec3)
        ensures
            r == normalized_of(rotated_of(self.spec_rotation(), z_axis())),
    {
        let ax = vec3_z();
        vec3_normalize(quat_rotate(self.rotation, ax))
    }

    /// The negated unit z axis rotated into this transform's frame.
    pub fn get_backward(&self) -> (r: glam::Vec3)
        ensures
            r == normalized_of(rotated_of(self.spec_rotation(), negated_of(z_axis()))),
    {
        let ax = vec3_neg(vec3_z());
        vec3_normalize(quat_rotate(self.rotation, ax))
    }

    /// Point the z axis along `fwd`, using `up` as the hint that fixes the
    /// roll, and mark the cache stale. Undefined numerically when `up` is
    /// parallel to `fwd` (the cross product is then near zero).
    pub fn set_forward(&mut self, fwd: glam::Vec3, up: glam::Vec3)
        ensures
            final(self).spec_rotation() == forward_rotation_of(fwd, up),
            final(self).spec_position() == old(self).spec_position(),
            final(self).spec_scale() == old(self).spec_scale(),
            final(self).spec_dirty(),
            final(self).wf(),
    {
        let f = vec3_normalize(fwd);
        let r = vec3_normalize(vec3_cross(up, f));
        let u = vec3_normalize(vec3_cross(f, r));
        self.rotation = quat_from_mat3(mat3_from_cols(r, u, f));
        self.dirty = true;
    }

    /// Take a point in local coordinates to the parent's frame through the
    /// local-to-world matrix, recomputing the cache if it was stale.
    pub fn transform_to_world_space(&mut self, point: glam::Vec3) -> (r: glam::Vec3)
        requires
            old(self).wf(),
        ensures
            r == transformed_point_of(old(self).spec_local_to_world(), point),
            final(self).spec_position() == old(self).spec_position(),
            final(self).spec_rotation() == old(self).spec_rotation(),
            final(self).spec_scale() == old(self).spec_scale(),
            !final(self).spec_dirty(),
            final(self).wf(),
    {
        let m = self.get_local_to_world_matrix();
        mat4_transform_point3(m, point)
    }
}

/// The rotation `set_forward` builds: the forward direction normalized, the
/// right axis from the up hint, the up axis recomputed, the three taken as an
/// orthonormal basis.
pub open spec fn forward_rotation_of(fwd: glam::Vec3, up: glam::Vec3) -> glam::Quat {
    let f = normalized_of(fwd);
    let r = normalized_of(cross_of(up, f));
    let u = normalized_of(cross_of(f, r));
    quat_of_mat3(basis_mat_of(r, u, f))
}

} // verus!
