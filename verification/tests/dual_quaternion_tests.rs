//! Exact-value tests of the dual-quaternion algebra, plus cross-checks of
//! the quaternion conventions against the `quaternion_core` crate.

use dual_quaternion::algebra::{DualNumber, Quat, Vec3};
use dual_quaternion::DualQuaternion;

fn quat(w: i64, x: i64, y: i64, z: i64) -> Quat {
    Quat { w, x, y, z }
}

fn vec3(x: i64, y: i64, z: i64) -> Vec3 {
    Vec3 { x, y, z }
}

fn sample() -> DualQuaternion {
    DualQuaternion { primary: quat(2, -3, 5, 7), dual: quat(-1, 4, -6, 8) }
}

#[test]
fn identity_is_left_and_right_neutral() {
    let a = sample();
    let id = dual_quaternion::identity();
    assert_eq!(dual_quaternion::mul(id, a), a);
    assert_eq!(dual_quaternion::mul(a, id), a);
}

#[test]
fn conj_is_an_involution() {
    let a = sample();
    assert_eq!(dual_quaternion::conj(dual_quaternion::conj(a)), a);
}

#[test]
fn conj_dual_num_is_an_involution() {
    let a = sample();
    assert_eq!(dual_quaternion::conj_dual_num(dual_quaternion::conj_dual_num(a)), a);
}

#[test]
fn conj_and_conj_dual_num_differ() {
    let a = sample();
    let c = dual_quaternion::conj(a);
    let cd = dual_quaternion::conj_dual_num(a);
    assert_eq!(c.primary, quat(2, 3, -5, -7));
    assert_eq!(c.dual, quat(-1, -4, 6, -8));
    assert_eq!(cd.primary, a.primary);
    assert_eq!(cd.dual, quat(1, -4, 6, -8));
}

#[test]
fn mul_with_conj_gives_the_squared_norm() {
    let a = sample();
    let n = dual_quaternion::norm_squared(a);
    let m = dual_quaternion::mul(a, dual_quaternion::conj(a));
    assert_eq!(m.primary, quat(n.real, 0, 0, 0));
    assert_eq!(m.dual, quat(n.dual, 0, 0, 0));
}

#[test]
fn norm_squared_exact_values() {
    let a = sample();
    let n = dual_quaternion::norm_squared(a);
    // ‖(2,−3,5,7)‖² = 4 + 9 + 25 + 49
    assert_eq!(n.real, 87);
    // 2·⟨primary, dual⟩ = 2·(−2 − 12 − 30 + 56)
    assert_eq!(n.dual, 24);
}

#[test]
fn add_sub_scale_componentwise() {
    let a = sample();
    let b = DualQuaternion { primary: quat(1, 1, 1, 1), dual: quat(2, 2, 2, 2) };
    let s = dual_quaternion::add(a, b);
    assert_eq!(s.primary, quat(3, -2, 6, 8));
    assert_eq!(s.dual, quat(1, 6, -4, 10));
    let d = dual_quaternion::sub(s, b);
    assert_eq!(d, a);
    let t = dual_quaternion::scale(3, b);
    assert_eq!(t.primary, quat(3, 3, 3, 3));
    assert_eq!(t.dual, quat(6, 6, 6, 6));
}

#[test]
fn scalar_dual_number_action_follows_the_leibniz_rule() {
    let n = DualNumber { real: 2, dual: 3 };
    let a = sample();
    let m = dual_quaternion::mul_num_quat(n, a);
    // primary = 2·primary
    assert_eq!(m.primary, quat(4, -6, 10, 14));
    // dual = 2·dual + 3·primary = 2·(−1,4,−6,8) + 3·(2,−3,5,7)
    assert_eq!(m.dual, quat(4, -1, 3, 37));
    let s = dual_quaternion::add_num_quat(n, a);
    assert_eq!(s.primary, quat(4, -3, 5, 7));
    assert_eq!(s.dual, quat(2, 4, -6, 8));
}

#[test]
fn zero_motion_gives_the_identity_pose() {
    let q = quat(1, 0, 0, 0);
    let a = dual_quaternion::from_quat_vector(q, vec3(0, 0, 0));
    assert_eq!(a, dual_quaternion::identity());
}

#[test]
fn translation_extraction_on_the_unit_shell() {
    // A 180° rotation about Z is the unit quaternion (0, 0, 0, 1).
    let q = quat(0, 0, 0, 1);
    let r = vec3(2, 4, 6);
    let a = dual_quaternion::from_quat_vector(q, r);
    assert_eq!(dual_quaternion::get_translation(a), r);
}

#[test]
fn translation_extraction_scales_with_the_squared_norm() {
    // ‖(1,1,1,1)‖² = 4: the extracted translation is 4·r.
    let q = quat(1, 1, 1, 1);
    let r = vec3(2, -4, 6);
    let a = dual_quaternion::from_quat_vector(q, r);
    assert_eq!(dual_quaternion::get_translation(a), vec3(8, -16, 24));
}

#[test]
fn vector_translation_moves_the_origin_to_the_translation() {
    let q = quat(0, 0, 0, 1);
    let r = vec3(2, 0, 0);
    let a = dual_quaternion::from_quat_vector(q, r);
    assert_eq!(dual_quaternion::vector_translation(a, vec3(0, 0, 0)), r);
}

#[test]
fn vector_translation_rotates_then_translates() {
    // 180° about Z sends (x, y, z) to (−x, −y, z); then the translation.
    let q = quat(0, 0, 0, 1);
    let r = vec3(2, 0, 0);
    let a = dual_quaternion::from_quat_vector(q, r);
    assert_eq!(dual_quaternion::vector_translation(a, vec3(3, 4, 5)), vec3(-1, -4, 5));
}

#[test]
fn transform_round_trip_is_exact() {
    let q = quat(0, 0, 0, 1);
    let r = vec3(2, 4, 6);
    let a = dual_quaternion::from_quat_vector(q, r);
    let p = vec3(3, -4, 5);
    let moved = dual_quaternion::vector_translation(a, p);
    assert_eq!(dual_quaternion::frame_translation(a, moved), p);

    let q2 = quat(0, 1, 0, 0);
    let a2 = dual_quaternion::from_quat_vector(q2, vec3(-2, 8, 10));
    let moved2 = dual_quaternion::vector_translation(a2, p);
    assert_eq!(dual_quaternion::frame_translation(a2, moved2), p);
}

#[test]
fn shortcut_agrees_with_the_sandwich_product() {
    let a = sample();
    let p = vec3(3, -4, 5);
    let lift = DualQuaternion {
        primary: quat(1, 0, 0, 0),
        dual: quat(0, p.x, p.y, p.z),
    };
    let s = dual_quaternion::mul(
        dual_quaternion::mul(a, lift),
        dual_quaternion::conj_dual_num(dual_quaternion::conj(a)),
    );
    let direct = dual_quaternion::vector_translation(a, p);
    assert_eq!(vec3(s.dual.x, s.dual.y, s.dual.z), direct);
}

#[test]
fn composed_poses_act_as_one_after_the_other() {
    // mul(a, b) applies b first and a second.
    let a = dual_quaternion::from_quat_vector(quat(0, 0, 0, 1), vec3(2, 0, 0));
    let b = dual_quaternion::from_quat_vector(quat(0, 1, 0, 0), vec3(0, 4, 0));
    let ab = dual_quaternion::mul(a, b);
    let p = vec3(3, -4, 6);
    let two_steps = dual_quaternion::vector_translation(a, dual_quaternion::vector_translation(b, p));
    assert_eq!(dual_quaternion::vector_translation(ab, p), two_steps);
}

#[test]
fn hamilton_product_matches_quaternion_core() {
    let a = quat(2, -3, 5, 7);
    let b = quat(-1, 4, -6, 8);
    let ours = dual_quaternion::algebra::quat_product(a, b);
    let theirs: quaternion_core::Quaternion<f64> = quaternion_core::mul(
        (a.w as f64, [a.x as f64, a.y as f64, a.z as f64]),
        (b.w as f64, [b.x as f64, b.y as f64, b.z as f64]),
    );
    assert_eq!(theirs.0, ours.w as f64);
    assert_eq!(theirs.1[0], ours.x as f64);
    assert_eq!(theirs.1[1], ours.y as f64);
    assert_eq!(theirs.1[2], ours.z as f64);
}

#[test]
fn point_rotation_matches_quaternion_core() {
    let q = quat(0, 0, 0, 1);
    let v = vec3(3, -4, 5);
    let ours = dual_quaternion::algebra::rotate_point(q, v);
    let theirs = quaternion_core::point_rotation(
        (q.w as f64, [q.x as f64, q.y as f64, q.z as f64]),
        [v.x as f64, v.y as f64, v.z as f64],
    );
    assert!((theirs[0] - ours.x as f64).abs() < 1e-9);
    assert!((theirs[1] - ours.y as f64).abs() < 1e-9);
    assert!((theirs[2] - ours.z as f64).abs() < 1e-9);
}

#[test]
fn frame_rotation_matches_quaternion_core() {
    let q = quat(0, 0, 1, 0);
    let v = vec3(3, -4, 5);
    let ours = dual_quaternion::algebra::rotate_frame(q, v);
    let theirs = quaternion_core::frame_rotation(
        (q.w as f64, [q.x as f64, q.y as f64, q.z as f64]),
        [v.x as f64, v.y as f64, v.z as f64],
    );
    assert!((theirs[0] - ours.x as f64).abs() < 1e-9);
    assert!((theirs[1] - ours.y as f64).abs() < 1e-9);
    assert!((theirs[2] - ours.z as f64).abs() < 1e-9);
}
