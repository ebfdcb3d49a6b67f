//! A camera: one transform, and a cached view matrix that is the inverse of
//! that transform's local-to-world matrix, kept under the same dirty-flag
//! discipline as the transform's own cache.

use vstd::prelude::*;

use crate::math::{identity_quat, inverse_of, mat4_identity, mat4_inverse, one_vec3, vec3_z, z_axis, zero_vec3};
use crate::transform::{forward_rotation_of, Transform};

verus! {

/// How a camera is driven.
#[derive(Clone, Copy, Debug)]
pub enum CameraMode {
    FirstPerson,
    LookAt,
    OrbCamera,
}

/// A camera over one transform.
#[derive(Debug)]
pub struct Camera {
    transform: Transform,
    view_matrix: glam::Mat4,
    changed: bool,
    mode: CameraMode,
}

impl Camera {
    /// The wrapped transform.
    pub closed spec fn spec_transform(self) -> Transform {
        self.transform
    }

    /// The cached view matrix, meaningful only while `spec_changed()` is false.
    pub closed spec fn spec_view_matrix(self) -> glam::Mat4 {
        self.view_matrix
    }

    /// Whether the cached view matrix is stale.
    pub closed spec fn spec_changed(self) -> bool {
        self.changed
    }

    /// The camera's mode.
    pub closed spec fn spec_mode(self) -> CameraMode {
        self.mode
    }

    /// The view matrix this camera derives: the inverse of its transform's
    /// local-to-world matrix.
    pub open spec fn spec_view_of(self) -> glam::Mat4 {
        inverse_of(self.spec_transform().spec_local_to_world())
    }

    /// The caching invariant: the transform is well formed, and a clean
    /// cache holds the derived view matrix.
    pub open spec fn wf(self) -> bool {
        &&& self.spec_transform().wf()
        &&& !self.spec_changed() ==> self.spec_view_matrix() == self.spec_view_of()
    }

    /// A first-person camera on a fresh default transform.
    pub fn default() -> (r: Camera)
        ensures
            r.wf(),
            r.spec_changed(),
            r.spec_transform().spec_position() == zero_vec3(),
            r.spec_transform().spec_rotation() == identity_quat(),
            r.spec_transform().spec_scale() == one_vec3(),
            r.spec_mode() == CameraMode::FirstPerson,
    {
        Camera {
            transform: Transform::default(),
            view_matrix: mat4_identity(),
            changed: true,
            mode: CameraMode::FirstPerson,
        }
    }

    fn update_view_matrix(&mut self)
        requires
            old(self).spec_transform().wf(),
        ensures
            final(self).wf(),
            !final(self).spec_changed(),
            final(self).spec_view_matrix() == inverse_of(
                old(self).spec_transform().spec_local_to_world(),
            ),
            final(self).spec_transform().spec_position() == old(
                self,
            ).spec_transform().spec_position(),
            final(self).spec_transform().spec_rotation() == old(
                self,
            ).spec_transform().spec_rotation(),
            final(self).spec_transform().spec_scale() == old(self).spec_transform().spec_scale(),
            final(self).spec_mode() == old(self).spec_mode(),
    {
        let m = self.transform.get_local_to_world_matrix();
        self.view_matrix = mat4_inverse(m);
        self.changed = false;
    }

    /// The view matrix, recomputed here if `look_at` left the cache stale.
    pub fn get_view_matrix(&mut self) -> (r: glam::Mat4)
        requires
            old(self).wf(),
        ensures
            r == inverse_of(old(self).spec_transform().spec_local_to_world()),
            final(self).wf(),
            !final(self).spec_changed(),
            final(self).spec_view_matrix() == r,
            final(self).spec_transform().spec_position() == old(
                self,
            ).spec_transform().spec_position(),
            final(self).spec_transform().spec_rotation() == old(
                self,
            ).spec_transform().spec_rotation(),
            final(self).spec_transform().spec_scale() == old(self).spec_transform().spec_scale(),
            final(self).spec_mode() == old(self).spec_mode(),
    {
        if self.changed {
            self.update_view_matrix();
        }
        self.view_matrix
    }

    /// Point the transform along `dir` — the up hint handed on is the fixed
    /// z axis — and mark the cached view stale.
    pub fn look_at(&mut self, dir: glam::Vec3)
        ensures
            final(self).wf(),
            final(self).spec_changed(),
            final(self).spec_transform().spec_rotation() == forward_rotation_of(dir, z_axis()),
            final(self).spec_transform().spec_position() == old(
                self,
            ).spec_transform().spec_position(),
            final(self).spec_transform().spec_scale() == old(self).spec_transform().spec_scale(),
            final(self).spec_mode() == old(self).spec_mode(),
    {
        let up_hint = vec3_z();
        self.transform.set_forward(dir, up_hint);
        self.changed = true;
    }
}

} // verus!
