//! A dual-quaternion algebra over exact integer scalars, verified with Verus.
//!
//! A dual quaternion `primary + ε·dual` packs a rigid-body rotation and
//! translation into one eight-component value under the nilpotent rule
//! `ε² = 0`. Every operation here is a pure function on `i64` components,
//! and its contract states the exact component mathematics over the
//! mathematical-integer views; the laws of the algebra are proved in
//! [`laws`].
//!
//! Conventions, fixed once for every formula below:
//! - `quat_mul(a, b)` is the Hamilton product `a ⊗ b`;
//! - a pose built by [`from_quat_vector`] rotates first and translates
//!   second, with `dual = ½ · (0, r) ⊗ q`;
//! - [`mul`] composes poses: `mul(a, b)` acts as `b` followed by `a`;
//! - a point is moved by the rotation `q ⊗ (0, v) ⊗ q*` (see
//!   [`algebra::rotate_point`]), a frame change uses its inverse.

use vstd::prelude::*;

pub mod algebra;
pub mod laws;

use crate::algebra::{
    COMP_BOUND, DualNumber, DualNumberView, Quat, QuatView, Vec3, Vec3View, half_even,
    frame_rotation_spec, in_comp_range, lemma_mul_assoc3, lemma_mul_bound, point_rotation_spec,
    quat_add, quat_conj, quat_conjugate, quat_dot, quat_identity, quat_in_range, quat_mul,
    quat_neg, quat_norm_sq, quat_product, quat_pure, quat_scale, quat_sub, quat_sum, quat_vec,
    quat_zero, rotate_frame, rotate_point, vec_add, vec_cross, vec_in_range, vec_scale, vec_sub,
};

verus! {

// ---------------------------------------------------------------------------
// The dual-quaternion type
// ---------------------------------------------------------------------------

/// Mathematical view of a dual quaternion `primary + ε·dual`.
pub struct DualQuaternionView {
    pub primary: QuatView,
    pub dual: QuatView,
}

/// A dual quaternion with exact integer components.
#[derive(Clone, Copy, Debug, PartialEq, Eq, Structural)]
pub struct DualQuaternion {
    pub primary: Quat,
    pub dual: Quat,
}

impl View for DualQuaternion {
    type V = DualQuaternionView;

    open spec fn view(&self) -> DualQuaternionView {
        DualQuaternionView { primary: self.primary@, dual: self.dual@ }
    }
}

pub open spec fn dq_in_range(a: DualQuaternionView) -> bool {
    quat_in_range(a.primary) && quat_in_range(a.dual)
}

// ---------------------------------------------------------------------------
// Spec-level dual-quaternion algebra
// ---------------------------------------------------------------------------

/// The two-sided multiplicative identity: `1 + ε·0`.
pub open spec fn dq_identity() -> DualQuaternionView {
    DualQuaternionView { primary: quat_identity(), dual: quat_zero() }
}

pub open spec fn dq_add(a: DualQuaternionView, b: DualQuaternionView) -> DualQuaternionView {
    DualQuaternionView { primary: quat_add(a.primary, b.primary), dual: quat_add(a.dual, b.dual) }
}

pub open spec fn dq_sub(a: DualQuaternionView, b: DualQuaternionView) -> DualQuaternionView {
    DualQuaternionView { primary: quat_sub(a.primary, b.primary), dual: quat_sub(a.dual, b.dual) }
}

pub open spec fn dq_scale(s: int, a: DualQuaternionView) -> DualQuaternionView {
    DualQuaternionView { primary: quat_scale(s, a.primary), dual: quat_scale(s, a.dual) }
}

/// The ε²=0 expansion of `(a0 + ε·a1) ⊗ (b0 + ε·b1)`.
pub open spec fn dq_mul(a: DualQuaternionView, b: DualQuaternionView) -> DualQuaternionView {
    DualQuaternionView {
        primary: quat_mul(a.primary, b.primary),
        dual: quat_add(quat_mul(a.primary, b.dual), quat_mul(a.dual, b.primary)),
    }
}

/// Quaternion conjugation of both parts: the algebra conjugate.
pub open spec fn dq_conj(a: DualQuaternionView) -> DualQuaternionView {
    DualQuaternionView { primary: quat_conj(a.primary), dual: quat_conj(a.dual) }
}

/// Dual-number conjugation `ε → −ε`: the dual part is negated.
pub open spec fn dq_conj_dual_num(a: DualQuaternionView) -> DualQuaternionView {
    DualQuaternionView { primary: a.primary, dual: quat_neg(a.dual) }
}

/// A scalar dual number added onto the scalar components of both parts.
pub open spec fn dq_add_num(n: DualNumberView, a: DualQuaternionView) -> DualQuaternionView {
    DualQuaternionView {
        primary: QuatView { w: n.real + a.primary.w, ..a.primary },
        dual: QuatView { w: n.dual + a.dual.w, ..a.dual },
    }
}

/// The commutative action of a scalar dual number, by the Leibniz rule
/// forced by `ε² = 0`.
pub open spec fn dq_mul_num(n: DualNumberView, a: DualQuaternionView) -> DualQuaternionView {
    DualQuaternionView {
        primary: quat_scale(n.real, a.primary),
        dual: quat_add(quat_scale(n.real, a.dual), quat_scale(n.dual, a.primary)),
    }
}

/// The square of the dual-number norm: `(‖p‖², 2·⟨p, d⟩)`, every component
/// polynomial and therefore exact.
pub open spec fn dq_norm_sq(a: DualQuaternionView) -> DualNumberView {
    DualNumberView { real: quat_norm_sq(a.primary), dual: 2 * quat_dot(a.primary, a.dual) }
}

/// A scalar dual number seen as a dual quaternion.
pub open spec fn dq_of_num(n: DualNumberView) -> DualQuaternionView {
    DualQuaternionView {
        primary: QuatView { w: n.real, x: 0, y: 0, z: 0 },
        dual: QuatView { w: n.dual, x: 0, y: 0, z: 0 },
    }
}

/// The point `(1, p)` a pose acts on.
pub open spec fn dq_lift_point(p: Vec3View) -> DualQuaternionView {
    DualQuaternionView { primary: quat_identity(), dual: quat_pure(p) }
}

/// The shared non-rotation term of [`vector_translation`]:
/// `p0·dv − d0·pv + pv×dv`.
pub open spec fn dq_shift(a: DualQuaternionView) -> Vec3View {
    vec_add(
        vec_sub(
            vec_scale(a.primary.w, quat_vec(a.dual)),
            vec_scale(a.dual.w, quat_vec(a.primary)),
        ),
        vec_cross(quat_vec(a.primary), quat_vec(a.dual)),
    )
}

/// What [`vector_translation`] returns: `2·shift + (point rotation of p)`.
pub open spec fn vector_translation_spec(a: DualQuaternionView, p: Vec3View) -> Vec3View {
    vec_add(vec_scale(2, dq_shift(a)), point_rotation_spec(a.primary, p))
}

/// The non-rotation term of [`frame_translation`]:
/// `d0·pv − p0·dv + pv×dv`.
pub open spec fn dq_shift_frame(a: DualQuaternionView) -> Vec3View {
    vec_add(
        vec_sub(
            vec_scale(a.dual.w, quat_vec(a.primary)),
            vec_scale(a.primary.w, quat_vec(a.dual)),
        ),
        vec_cross(quat_vec(a.primary), quat_vec(a.dual)),
    )
}

/// What [`frame_translation`] returns: `2·frame-shift + (frame rotation of
/// p)`, the exact inverse of [`vector_translation`] on the unit shell.
pub open spec fn frame_translation_spec(a: DualQuaternionView, p: Vec3View) -> Vec3View {
    vec_add(vec_scale(2, dq_shift_frame(a)), frame_rotation_spec(a.primary, p))
}

/// What [`get_translation`] returns: the vector part of `2·(d ⊗ p*)`.
pub open spec fn get_translation_spec(a: DualQuaternionView) -> Vec3View {
    vec_scale(2, quat_vec(quat_mul(a.dual, quat_conj(a.primary))))
}

// ---------------------------------------------------------------------------
// Executable operations
// ---------------------------------------------------------------------------

/// The identity pose: no rotation, no translation.
pub fn identity() -> (r: DualQuaternion)
    ensures
        r@ == dq_identity(),
{
    DualQuaternion {
        primary: Quat { w: 1, x: 0, y: 0, z: 0 },
        dual: Quat { w: 0, x: 0, y: 0, z: 0 },
    }
}

/// Componentwise sum on both parts.
pub fn add(a: DualQuaternion, b: DualQuaternion) -> (r: DualQuaternion)
    requires
        dq_in_range(a@),
        dq_in_range(b@),
    ensures
        r@ == dq_add(a@, b@),
{
    DualQuaternion {
        primary: Quat {
            w: a.primary.w + b.primary.w,
            x: a.primary.x + b.primary.x,
            y: a.primary.y + b.primary.y,
            z: a.primary.z + b.primary.z,
        },
        dual: Quat {
            w: a.dual.w + b.dual.w,
            x: a.dual.x + b.dual.x,
            y: a.dual.y + b.dual.y,
            z: a.dual.z + b.dual.z,
        },
    }
}

/// Componentwise difference on both parts.
pub fn sub(a: DualQuaternion, b: DualQuaternion) -> (r: DualQuaternion)
    requires
        dq_in_range(a@),
        dq_in_range(b@),
    ensures
        r@ == dq_sub(a@, b@),
{
    DualQuaternion {
        primary: Quat {
            w: a.primary.w - b.primary.w,
            x: a.primary.x - b.primary.x,
            y: a.primary.y - b.primary.y,
            z: a.primary.z - b.primary.z,
        },
        dual: Quat {
            w: a.dual.w - b.dual.w,
            x: a.dual.x - b.dual.x,
            y: a.dual.y - b.dual.y,
            z: a.dual.z - b.dual.z,
        },
    }
}

/// A scalar multiplies both parts.
pub fn scale(s: i64, a: DualQuaternion) -> (r: DualQuaternion)
    requires
        in_comp_range(s as int),
        dq_in_range(a@),
    ensures
        r@ == dq_scale(s as int, a@),
{
    proof {
        lemma_mul_bound(s as int, a@.primary.w, COMP_BOUND as int, COMP_BOUND as int);
        lemma_mul_bound(s as int, a@.primary.x, COMP_BOUND as int, COMP_BOUND as int);
        lemma_mul_bound(s as int, a@.primary.y, COMP_BOUND as int, COMP_BOUND as int);
        lemma_mul_bound(s as int, a@.primary.z, COMP_BOUND as int, COMP_BOUND as int);
        lemma_mul_bound(s as int, a@.dual.w, COMP_BOUND as int, COMP_BOUND as int);
        lemma_mul_bound(s as int, a@.dual.x, COMP_BOUND as int, COMP_BOUND as int);
        lemma_mul_bound(s as int, a@.dual.y, COMP_BOUND as int, COMP_BOUND as int);
        lemma_mul_bound(s as int, a@.dual.z, COMP_BOUND as int, COMP_BOUND as int);
    }
    DualQuaternion {
        primary: Quat {
            w: s * a.primary.w,
            x: s * a.primary.x,
            y: s * a.primary.y,
            z: s * a.primary.z,
        },
        dual: Quat { w: s * a.dual.w, x: s * a.dual.x, y: s * a.dual.y, z: s * a.dual.z },
    }
}

/// The non-commutative dual-quaternion product:
/// `primary = a0 ⊗ b0`, `dual = a0 ⊗ b1 + a1 ⊗ b0`.
pub fn mul(a: DualQuaternion, b: DualQuaternion) -> (r: DualQuaternion)
    requires
        dq_in_range(a@),
        dq_in_range(b@),
    ensures
        r@ == dq_mul(a@, b@),
{
    let primary = quat_product(a.primary, b.primary);
    let dual = quat_sum(quat_product(a.primary, b.dual), quat_product(a.dual, b.primary));
    DualQuaternion { primary, dual }
}

/// A scalar dual number added onto a dual quaternion.
pub fn add_num_quat(n: DualNumber, a: DualQuaternion) -> (r: DualQuaternion)
    requires
        in_comp_range(n@.real),
        in_comp_range(n@.dual),
        dq_in_range(a@),
    ensures
        r@ == dq_add_num(n@, a@),
{
    DualQuaternion {
        primary: Quat { w: n.real + a.primary.w, x: a.primary.x, y: a.primary.y, z: a.primary.z },
        dual: Quat { w: n.dual + a.dual.w, x: a.dual.x, y: a.dual.y, z: a.dual.z },
    }
}

/// A scalar dual number multiplied onto a dual quaternion; commutative,
/// by the Leibniz rule `(n0 + ε·n1)·(a0 + ε·a1) = n0·a0 + ε·(n0·a1 + n1·a0)`.
pub fn mul_num_quat(n: DualNumber, a: DualQuaternion) -> (r: DualQuaternion)
    requires
        in_comp_range(n@.real),
        in_comp_range(n@.dual),
        dq_in_range(a@),
    ensures
        r@ == dq_mul_num(n@, a@),
{
    proof {
        lemma_mul_bound(n@.real, a@.primary.w, COMP_BOUND as int, COMP_BOUND as int);
        lemma_mul_bound(n@.real, a@.primary.x, COMP_BOUND as int, COMP_BOUND as int);
        lemma_mul_bound(n@.real, a@.primary.y, COMP_BOUND as int, COMP_BOUND as int);
        lemma_mul_bound(n@.real, a@.primary.z, COMP_BOUND as int, COMP_BOUND as int);
        lemma_mul_bound(n@.real, a@.dual.w, COMP_BOUND as int, COMP_BOUND as int);
        lemma_mul_bound(n@.real, a@.dual.x, COMP_BOUND as int, COMP_BOUND as int);
        lemma_mul_bound(n@.real, a@.dual.y, COMP_BOUND as int, COMP_BOUND as int);
        lemma_mul_bound(n@.real, a@.dual.z, COMP_BOUND as int, COMP_BOUND as int);
        lemma_mul_bound(n@.dual, a@.primary.w, COMP_BOUND as int, COMP_BOUND as int);
        lemma_mul_bound(n@.dual, a@.primary.x, COMP_BOUND as int, COMP_BOUND as int);
        lemma_mul_bound(n@.dual, a@.primary.y, COMP_BOUND as int, COMP_BOUND as int);
        lemma_mul_bound(n@.dual, a@.primary.z, COMP_BOUND as int, COMP_BOUND as int);
    }
    DualQuaternion {
        primary: Quat {
            w: n.real * a.primary.w,
            x: n.real * a.primary.x,
            y: n.real * a.primary.y,
            z: n.real * a.primary.z,
        },
        dual: Quat {
            w: n.real * a.dual.w + n.dual * a.primary.w,
            x: n.real * a.dual.x + n.dual * a.primary.x,
            y: n.real * a.dual.y + n.dual * a.primary.y,
            z: n.real * a.dual.z + n.dual * a.primary.z,
        },
    }
}

/// The algebra conjugate: both parts quaternion-conjugated.
pub fn conj(a: DualQuaternion) -> (r: DualQuaternion)
    requires
        dq_in_range(a@),
    ensures
        r@ == dq_conj(a@),
{
    DualQuaternion { primary: quat_conjugate(a.primary), dual: quat_conjugate(a.dual) }
}

/// The dual-number conjugate `ε → −ε`: the primary part kept, the dual part
/// negated. Distinct from [`conj`] and needed separately by the transform
/// formulas.
pub fn conj_dual_num(a: DualQuaternion) -> (r: DualQuaternion)
    requires
        dq_in_range(a@),
    ensures
        r@ == dq_conj_dual_num(a@),
{
    DualQuaternion {
        primary: a.primary,
        dual: Quat { w: -a.dual.w, x: -a.dual.x, y: -a.dual.y, z: -a.dual.z },
    }
}

/// The square of the dual-number norm: `real = ‖primary‖²`,
/// `dual = 2·⟨primary, dual⟩`.
///
/// Over exact integers the square root of `‖primary‖²` is not generally
/// representable, so this library exposes the squared norm; on it the
/// division-algebra law `a ⊗ conj(a) = norm²(a)` is proved in [`laws`].
pub fn norm_squared(a: DualQuaternion) -> (r: DualNumber)
    requires
        dq_in_range(a@),
    ensures
        r@ == dq_norm_sq(a@),
{
    proof {
        lemma_mul_bound(a@.primary.w, a@.primary.w, COMP_BOUND as int, COMP_BOUND as int);
        lemma_mul_bound(a@.primary.x, a@.primary.x, COMP_BOUND as int, COMP_BOUND as int);
        lemma_mul_bound(a@.primary.y, a@.primary.y, COMP_BOUND as int, COMP_BOUND as int);
        lemma_mul_bound(a@.primary.z, a@.primary.z, COMP_BOUND as int, COMP_BOUND as int);
        lemma_mul_bound(a@.primary.w, a@.dual.w, COMP_BOUND as int, COMP_BOUND as int);
        lemma_mul_bound(a@.primary.x, a@.dual.x, COMP_BOUND as int, COMP_BOUND as int);
        lemma_mul_bound(a@.primary.y, a@.dual.y, COMP_BOUND as int, COMP_BOUND as int);
        lemma_mul_bound(a@.primary.z, a@.dual.z, COMP_BOUND as int, COMP_BOUND as int);
    }
    DualNumber {
        real: a.primary.w * a.primary.w + a.primary.x * a.primary.x
            + a.primary.y * a.primary.y + a.primary.z * a.primary.z,
        dual: 2
            * (a.primary.w * a.dual.w + a.primary.x * a.dual.x + a.primary.y * a.dual.y
                + a.primary.z * a.dual.z),
    }
}

/// The pose that rotates by `q` and then translates by `r`:
/// `primary = q`, `dual = ½ · (0, r) ⊗ q`.
///
/// Over exact integers the halving asks for even translation components,
/// so the contract characterises the dual part through its double.
pub fn from_quat_vector(q: Quat, r: Vec3) -> (res: DualQuaternion)
    requires
        quat_in_range(q@),
        vec_in_range(r@),
        r@.x % 2 == 0,
        r@.y % 2 == 0,
        r@.z % 2 == 0,
    ensures
        res@.primary == q@,
        quat_scale(2, res@.dual) == quat_mul(quat_pure(r@), q@),
{
    let h = Vec3 { x: half_even(r.x), y: half_even(r.y), z: half_even(r.z) };
    let d = quat_product(Quat { w: 0, x: h.x, y: h.y, z: h.z }, q);
    proof {
        lemma_mul_assoc3(2, h@.x, q@.w);
        lemma_mul_assoc3(2, h@.x, q@.x);
        lemma_mul_assoc3(2, h@.x, q@.y);
        lemma_mul_assoc3(2, h@.x, q@.z);
        lemma_mul_assoc3(2, h@.y, q@.w);
        lemma_mul_assoc3(2, h@.y, q@.x);
        lemma_mul_assoc3(2, h@.y, q@.y);
        lemma_mul_assoc3(2, h@.y, q@.z);
        lemma_mul_assoc3(2, h@.z, q@.w);
        lemma_mul_assoc3(2, h@.z, q@.x);
        lemma_mul_assoc3(2, h@.z, q@.y);
        lemma_mul_assoc3(2, h@.z, q@.z);
    }
    DualQuaternion { primary: q, dual: d }
}

/// The translation carried by a pose: the vector part of
/// `2 · (dual ⊗ conj(primary))`; exactly `‖primary‖²·r` for a pose built by
/// [`from_quat_vector`], hence `r` itself on the unit shell.
pub fn get_translation(a: DualQuaternion) -> (r: Vec3)
    requires
        dq_in_range(a@),
    ensures
        r@ == get_translation_spec(a@),
{
    let t = quat_product(a.dual, quat_conjugate(a.primary));
    Vec3 { x: 2 * t.x, y: 2 * t.y, z: 2 * t.z }
}

/// A pose applied to a point of its own frame: rotation, then translation.
///
/// Computed by the algebraic shortcut `2·(p0·dv − d0·pv + pv×dv) + q⊗(0,p)⊗q*`;
/// the laws show the shortcut equal to the dual part of the sandwich product
/// `a ⊗ (1, p) ⊗ conj_dual_num(conj(a))` for every `a`.
pub fn vector_translation(a: DualQuaternion, p: Vec3) -> (r: Vec3)
    requires
        dq_in_range(a@),
        vec_in_range(p@),
    ensures
        r@ == vector_translation_spec(a@, p@),
{
    let shift = shift_vec(a);
    let rot = rotate_point(a.primary, p);
    Vec3 { x: 2 * shift.x + rot.x, y: 2 * shift.y + rot.y, z: 2 * shift.z + rot.z }
}

/// A world point expressed in the frame a pose defines: the inverse of
/// [`vector_translation`] whenever `‖primary‖² = 1`.
pub fn frame_translation(a: DualQuaternion, p: Vec3) -> (r: Vec3)
    requires
        dq_in_range(a@),
        vec_in_range(p@),
    ensures
        r@ == frame_translation_spec(a@, p@),
{
    let shift = shift_frame_vec(a);
    let rot = rotate_frame(a.primary, p);
    Vec3 { x: 2 * shift.x + rot.x, y: 2 * shift.y + rot.y, z: 2 * shift.z + rot.z }
}

/// The shared `p0·dv − d0·pv + pv×dv` term of the two transform formulas.
fn shift_vec(a: DualQuaternion) -> (r: Vec3)
    requires
        dq_in_range(a@),
    ensures
        r@ == dq_shift(a@),
        -1_000_000_000_000 <= r@.x <= 1_000_000_000_000,
        -1_000_000_000_000 <= r@.y <= 1_000_000_000_000,
        -1_000_000_000_000 <= r@.z <= 1_000_000_000_000,
{
    proof {
        lemma_mul_bound(a@.primary.w, a@.dual.x, COMP_BOUND as int, COMP_BOUND as int);
        lemma_mul_bound(a@.primary.w, a@.dual.y, COMP_BOUND as int, COMP_BOUND as int);
        lemma_mul_bound(a@.primary.w, a@.dual.z, COMP_BOUND as int, COMP_BOUND as int);
        lemma_mul_bound(a@.dual.w, a@.primary.x, COMP_BOUND as int, COMP_BOUND as int);
        lemma_mul_bound(a@.dual.w, a@.primary.y, COMP_BOUND as int, COMP_BOUND as int);
        lemma_mul_bound(a@.dual.w, a@.primary.z, COMP_BOUND as int, COMP_BOUND as int);
        lemma_mul_bound(a@.primary.x, a@.dual.y, COMP_BOUND as int, COMP_BOUND as int);
        lemma_mul_bound(a@.primary.x, a@.dual.z, COMP_BOUND as int, COMP_BOUND as int);
        lemma_mul_bound(a@.primary.y, a@.dual.x, COMP_BOUND as int, COMP_BOUND as int);
        lemma_mul_bound(a@.primary.y, a@.dual.z, COMP_BOUND as int, COMP_BOUND as int);
        lemma_mul_bound(a@.primary.z, a@.dual.x, COMP_BOUND as int, COMP_BOUND as int);
        lemma_mul_bound(a@.primary.z, a@.dual.y, COMP_BOUND as int, COMP_BOUND as int);
    }
    Vec3 {
        x: a.primary.w * a.dual.x - a.dual.w * a.primary.x
            + (a.primary.y * a.dual.z - a.primary.z * a.dual.y),
        y: a.primary.w * a.dual.y - a.dual.w * a.primary.y
            + (a.primary.z * a.dual.x - a.primary.x * a.dual.z),
        z: a.primary.w * a.dual.z - a.dual.w * a.primary.z
            + (a.primary.x * a.dual.y - a.primary.y * a.dual.x),
    }
}

/// The `d0·pv − p0·dv + pv×dv` term of [`frame_translation`].
fn shift_frame_vec(a: DualQuaternion) -> (r: Vec3)
    requires
        dq_in_range(a@),
    ensures
        r@ == dq_shift_frame(a@),
        -1_000_000_000_000 <= r@.x <= 1_000_000_000_000,
        -1_000_000_000_000 <= r@.y <= 1_000_000_000_000,
        -1_000_000_000_000 <= r@.z <= 1_000_000_000_000,
{
    proof {
        lemma_mul_bound(a@.primary.w, a@.dual.x, COMP_BOUND as int, COMP_BOUND as int);
        lemma_mul_bound(a@.primary.w, a@.dual.y, COMP_BOUND as int, COMP_BOUND as int);
        lemma_mul_bound(a@.primary.w, a@.dual.z, COMP_BOUND as int, COMP_BOUND as int);
        lemma_mul_bound(a@.dual.w, a@.primary.x, COMP_BOUND as int, COMP_BOUND as int);
        lemma_mul_bound(a@.dual.w, a@.primary.y, COMP_BOUND as int, COMP_BOUND as int);
        lemma_mul_bound(a@.dual.w, a@.primary.z, COMP_BOUND as int, COMP_BOUND as int);
        lemma_mul_bound(a@.primary.x, a@.dual.y, COMP_BOUND as int, COMP_BOUND as int);
        lemma_mul_bound(a@.primary.x, a@.dual.z, COMP_BOUND as int, COMP_BOUND as int);
        lemma_mul_bound(a@.primary.y, a@.dual.x, COMP_BOUND as int, COMP_BOUND as int);
        lemma_mul_bound(a@.primary.y, a@.dual.z, COMP_BOUND as int, COMP_BOUND as int);
        lemma_mul_bound(a@.primary.z, a@.dual.x, COMP_BOUND as int, COMP_BOUND as int);
        lemma_mul_bound(a@.primary.z, a@.dual.y, COMP_BOUND as int, COMP_BOUND as int);
    }
    Vec3 {
        x: a.dual.w * a.primary.x - a.primary.w * a.dual.x
            + (a.primary.y * a.dual.z - a.primary.z * a.dual.y),
        y: a.dual.w * a.primary.y - a.primary.w * a.dual.y
            + (a.primary.z * a.dual.x - a.primary.x * a.dual.z),
        z: a.dual.w * a.primary.z - a.primary.w * a.dual.z
            + (a.primary.x * a.dual.y - a.primary.y * a.dual.x),
    }
}

} // verus!
