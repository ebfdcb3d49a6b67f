use glam::{Mat4, Quat, Vec3};
use scene_graph::transform::Transform;

const EPS: f32 = 1e-5;

#[test]
fn default_transform_fields() {
    let mut t = Transform::default();
    assert_eq!(t.get_local_position(), Vec3::ZERO);
    assert_eq!(t.get_local_rotation(), Quat::IDENTITY);
    assert_eq!(t.get_local_scale(), Vec3::ONE);
    assert_eq!(t.get_local_to_world_matrix(), Mat4::IDENTITY);
}

#[test]
fn matrix_times_inverse_is_identity() {
    let mut t = Transform::default();
    t.set_local_position(Vec3::new(1.5, -2.0, 3.25));
    t.set_local_rotation(Quat::from_axis_angle(
        Vec3::new(0.2, 1.0, -0.4).normalize(),
        0.7,
    ));
    t.set_local_scale(Vec3::new(2.0, 0.5, 4.0));
    let m = t.get_local_to_world_matrix();
    let m_inv = t.get_world_to_local_matrix();
    assert!((m * m_inv).abs_diff_eq(Mat4::IDENTITY, EPS));
}

#[test]
fn set_forward_then_get_forward_returns_normalized_direction() {
    let mut t = Transform::default();
    let d = Vec3::new(0.3, -1.2, 2.0);
    t.set_forward(d, Vec3::Y);
    assert!(t.get_forward().abs_diff_eq(d.normalize(), EPS));

    let d2 = Vec3::new(1.0, 0.0, 0.0);
    t.set_forward(d2, Vec3::Z);
    assert!(t.get_forward().abs_diff_eq(d2, EPS));
}

#[test]
fn set_forward_builds_orthonormal_frame() {
    let mut t = Transform::default();
    t.set_forward(Vec3::new(0.0, 0.0, 5.0), Vec3::Y);
    assert!(t.get_right().abs_diff_eq(Vec3::X, EPS));
    assert!(t.get_up().abs_diff_eq(Vec3::Y, EPS));
    assert!(t.get_forward().abs_diff_eq(Vec3::Z, EPS));
}

#[test]
fn local_origin_maps_exactly_to_position() {
    let mut t = Transform::default();
    let pos = Vec3::new(4.0, 5.0, -6.0);
    t.set_local_position(pos);
    t.set_local_rotation(Quat::from_rotation_y(1.1));
    t.set_local_scale(Vec3::new(3.0, 3.0, 3.0));
    assert_eq!(t.transform_to_world_space(Vec3::ZERO), pos);
}

#[test]
fn scale_applies_before_translation() {
    let mut t = Transform::default();
    t.set_local_position(Vec3::new(1.0, 0.0, 0.0));
    t.set_local_scale(Vec3::new(2.0, 2.0, 2.0));
    let p = t.transform_to_world_space(Vec3::new(1.0, 0.0, 0.0));
    assert_eq!(p, Vec3::new(3.0, 0.0, 0.0));
}

#[test]
fn rotation_applies_between_scale_and_translation() {
    let mut t = Transform::default();
    t.set_local_position(Vec3::new(0.0, 0.0, 1.0));
    t.set_local_rotation(Quat::from_rotation_z(std::f32::consts::FRAC_PI_2));
    t.set_local_scale(Vec3::new(2.0, 1.0, 1.0));
    // (1, 0, 0) scales to (2, 0, 0), rotates to (0, 2, 0), then translates.
    let p = t.transform_to_world_space(Vec3::new(1.0, 0.0, 0.0));
    assert!(p.abs_diff_eq(Vec3::new(0.0, 2.0, 1.0), EPS));
}

#[test]
fn world_to_local_inverts_point_mapping() {
    let mut t = Transform::default();
    t.set_local_position(Vec3::new(-1.0, 2.0, 0.5));
    t.set_local_rotation(Quat::from_rotation_x(0.9));
    t.set_local_scale(Vec3::new(1.5, 1.5, 1.5));
    let p = Vec3::new(0.7, -0.3, 1.9);
    let w = t.transform_to_world_space(p);
    let back = t.get_world_to_local_matrix().transform_point3(w);
    assert!(back.abs_diff_eq(p, EPS));
}

#[test]
fn translate_accumulates_componentwise() {
    let mut t = Transform::default();
    t.translate(Vec3::new(1.0, 2.0, 3.0));
    t.translate(Vec3::new(0.5, -1.0, 0.25));
    assert_eq!(t.get_local_position(), Vec3::new(1.5, 1.0, 3.25));
}

#[test]
fn axis_getters_at_identity_rotation() {
    let t = Transform::default();
    assert!(t.get_right().abs_diff_eq(Vec3::X, EPS));
    assert!(t.get_left().abs_diff_eq(-Vec3::X, EPS));
    assert!(t.get_up().abs_diff_eq(Vec3::Y, EPS));
    assert!(t.get_down().abs_diff_eq(-Vec3::Y, EPS));
    assert!(t.get_forward().abs_diff_eq(Vec3::Z, EPS));
    assert!(t.get_backward().abs_diff_eq(-Vec3::Z, EPS));
}

#[test]
fn axis_getters_follow_rotation() {
    let mut t = Transform::default();
    t.set_local_rotation(Quat::from_rotation_z(std::f32::consts::FRAC_PI_2));
    assert!(t.get_right().abs_diff_eq(Vec3::Y, EPS));
    assert!(t.get_up().abs_diff_eq(-Vec3::X, EPS));
    assert!(t.get_forward().abs_diff_eq(Vec3::Z, EPS));
}

#[test]
fn cached_matrix_refreshes_after_each_setter() {
    let mut t = Transform::default();
    let m1 = t.get_local_to_world_matrix();
    t.set_local_position(Vec3::new(1.0, 1.0, 1.0));
    let m2 = t.get_local_to_world_matrix();
    assert_ne!(m1, m2);
    assert_eq!(
        m2,
        Mat4::from_scale_rotation_translation(Vec3::ONE, Quat::IDENTITY, Vec3::new(1.0, 1.0, 1.0))
    );
    let rot = Quat::from_rotation_y(0.4);
    t.set_local_rotation(rot);
    assert_eq!(
        t.get_local_to_world_matrix(),
        Mat4::from_scale_rotation_translation(Vec3::ONE, rot, Vec3::new(1.0, 1.0, 1.0))
    );
    t.set_local_scale(Vec3::new(2.0, 3.0, 4.0));
    assert_eq!(
        t.get_local_to_world_matrix(),
        Mat4::from_scale_rotation_translation(
            Vec3::new(2.0, 3.0, 4.0),
            rot,
            Vec3::new(1.0, 1.0, 1.0)
        )
    );
}

#[test]
fn setters_overwrite_fields() {
    let mut t = Transform::default();
    let rot = Quat::from_rotation_x(0.25);
    t.set_local_position(Vec3::new(9.0, 8.0, 7.0));
    t.set_local_rotation(rot);
    t.set_local_scale(Vec3::new(0.5, 0.5, 0.5));
    assert_eq!(t.get_local_position(), Vec3::new(9.0, 8.0, 7.0));
    assert_eq!(t.get_local_rotation(), rot);
    assert_eq!(t.get_local_scale(), Vec3::new(0.5, 0.5, 0.5));
}
