//! Exact scalar, vector and quaternion algebra underlying the dual-quaternion
//! engine.
//!
//! Every value is carried in `i64` components and modelled in contracts by a
//! mathematical-integer view, so each operation states — and Verus proves —
//! the exact component formulas. The quaternion product is the Hamilton
//! product in the order written: `quat_mul(a, b)` is `a ⊗ b`.

use vstd::prelude::*;

verus! {

/// Largest component magnitude the executable operations accept.
///
/// Small enough that every intermediate of a degree-three formula
/// (the rotation sandwiches) stays within `i64`.
pub const COMP_BOUND: i64 = 500_000;

pub open spec fn in_comp_range(x: int) -> bool {
    -COMP_BOUND <= x <= COMP_BOUND
}

/// Product of two values stays within the product of their bounds.
pub proof fn lemma_mul_bound(x: int, y: int, bx: int, by: int)
    by (nonlinear_arith)
    requires
        -bx <= x <= bx,
        -by <= y <= by,
    ensures
        -bx * by <= x * y <= bx * by,
{
}

// ---------------------------------------------------------------------------
// Vectors
// ---------------------------------------------------------------------------

/// Mathematical view of a three-component vector.
pub struct Vec3View {
    pub x: int,
    pub y: int,
    pub z: int,
}

#[derive(Clone, Copy, Debug, PartialEq, Eq, Structural)]
pub struct Vec3 {
    pub x: i64,
    pub y: i64,
    pub z: i64,
}

impl View for Vec3 {
    type V = Vec3View;

    open spec fn view(&self) -> Vec3View {
        Vec3View { x: self.x as int, y: self.y as int, z: self.z as int }
    }
}

pub open spec fn vec_in_range(v: Vec3View) -> bool {
    in_comp_range(v.x) && in_comp_range(v.y) && in_comp_range(v.z)
}

pub open spec fn vec_add(a: Vec3View, b: Vec3View) -> Vec3View {
    Vec3View { x: a.x + b.x, y: a.y + b.y, z: a.z + b.z }
}

pub open spec fn vec_sub(a: Vec3View, b: Vec3View) -> Vec3View {
    Vec3View { x: a.x - b.x, y: a.y - b.y, z: a.z - b.z }
}

pub open spec fn vec_scale(s: int, a: Vec3View) -> Vec3View {
    Vec3View { x: s * a.x, y: s * a.y, z: s * a.z }
}

pub open spec fn vec_cross(a: Vec3View, b: Vec3View) -> Vec3View {
    Vec3View {
        x: a.y * b.z - a.z * b.y,
        y: a.z * b.x - a.x * b.z,
        z: a.x * b.y - a.y * b.x,
    }
}

// ---------------------------------------------------------------------------
// Quaternions
// ---------------------------------------------------------------------------

/// Mathematical view of a quaternion `w + x·i + y·j + z·k`.
pub struct QuatView {
    pub w: int,
    pub x: int,
    pub y: int,
    pub z: int,
}

#[derive(Clone, Copy, Debug, PartialEq, Eq, Structural)]
pub struct Quat {
    pub w: i64,
    pub x: i64,
    pub y: i64,
    pub z: i64,
}

impl View for Quat {
    type V = QuatView;

    open spec fn view(&self) -> QuatView {
        QuatView { w: self.w as int, x: self.x as int, y: self.y as int, z: self.z as int }
    }
}

pub open spec fn quat_in_range(q: QuatView) -> bool {
    in_comp_range(q.w) && in_comp_range(q.x) && in_comp_range(q.y) && in_comp_range(q.z)
}

pub open spec fn quat_vec(q: QuatView) -> Vec3View {
    Vec3View { x: q.x, y: q.y, z: q.z }
}

pub open spec fn quat_pure(v: Vec3View) -> QuatView {
    QuatView { w: 0, x: v.x, y: v.y, z: v.z }
}

pub open spec fn quat_identity() -> QuatView {
    QuatView { w: 1, x: 0, y: 0, z: 0 }
}

pub open spec fn quat_zero() -> QuatView {
    QuatView { w: 0, x: 0, y: 0, z: 0 }
}

pub open spec fn quat_add(a: QuatView, b: QuatView) -> QuatView {
    QuatView { w: a.w + b.w, x: a.x + b.x, y: a.y + b.y, z: a.z + b.z }
}

pub open spec fn quat_sub(a: QuatView, b: QuatView) -> QuatView {
    QuatView { w: a.w - b.w, x: a.x - b.x, y: a.y - b.y, z: a.z - b.z }
}

pub open spec fn quat_scale(s: int, a: QuatView) -> QuatView {
    QuatView { w: s * a.w, x: s * a.x, y: s * a.y, z: s * a.z }
}

pub open spec fn quat_neg(a: QuatView) -> QuatView {
    QuatView { w: -a.w, x: -a.x, y: -a.y, z: -a.z }
}

/// Quaternion conjugate: the vector part is negated.
pub open spec fn quat_conj(a: QuatView) -> QuatView {
    QuatView { w: a.w, x: -a.x, y: -a.y, z: -a.z }
}

pub open spec fn quat_dot(a: QuatView, b: QuatView) -> int {
    a.w * b.w + a.x * b.x + a.y * b.y + a.z * b.z
}

/// Squared quaternion norm `‖a‖²`.
pub open spec fn quat_norm_sq(a: QuatView) -> int {
    quat_dot(a, a)
}

/// Hamilton product `a ⊗ b`.
pub open spec fn quat_mul(a: QuatView, b: QuatView) -> QuatView {
    QuatView {
        w: a.w * b.w - a.x * b.x - a.y * b.y - a.z * b.z,
        x: a.w * b.x + a.x * b.w + a.y * b.z - a.z * b.y,
        y: a.w * b.y + a.y * b.w + a.z * b.x - a.x * b.z,
        z: a.w * b.z + a.z * b.w + a.x * b.y - a.y * b.x,
    }
}

/// Rotation of a point by a versor: the vector part of `q ⊗ (0, v) ⊗ q*`.
pub open spec fn point_rotation_spec(q: QuatView, v: Vec3View) -> Vec3View {
    quat_vec(quat_mul(quat_mul(q, quat_pure(v)), quat_conj(q)))
}

/// Rotation of the frame (inverse direction): the vector part of
/// `q* ⊗ (0, v) ⊗ q`.
pub open spec fn frame_rotation_spec(q: QuatView, v: Vec3View) -> Vec3View {
    quat_vec(quat_mul(quat_mul(quat_conj(q), quat_pure(v)), q))
}

// ---------------------------------------------------------------------------
// Dual numbers
// ---------------------------------------------------------------------------

/// Mathematical view of a dual number `real + ε·dual` with `ε² = 0`.
pub struct DualNumberView {
    pub real: int,
    pub dual: int,
}

#[derive(Clone, Copy, Debug, PartialEq, Eq, Structural)]
pub struct DualNumber {
    pub real: i64,
    pub dual: i64,
}

impl View for DualNumber {
    type V = DualNumberView;

    open spec fn view(&self) -> DualNumberView {
        DualNumberView { real: self.real as int, dual: self.dual as int }
    }
}

// ---------------------------------------------------------------------------
// Executable quaternion operations
// ---------------------------------------------------------------------------

/// Associativity of a threefold scalar product.
pub proof fn lemma_mul_assoc3(s: int, u: int, v: int)
    by (nonlinear_arith)
    ensures
        (s * u) * v == s * (u * v),
{
}

/// Exact halving of an even component.
pub fn half_even(x: i64) -> (r: i64)
    requires
        x % 2 == 0,
        -1_000_000_000_000 <= x <= 1_000_000_000_000,
    ensures
        2 * r == x,
{
    x / 2
}

pub fn quat_conjugate(a: Quat) -> (r: Quat)
    requires
        quat_in_range(a@),
    ensures
        r@ == quat_conj(a@),
{
    Quat { w: a.w, x: -a.x, y: -a.y, z: -a.z }
}

/// Executable Hamilton product.
pub fn quat_product(a: Quat, b: Quat) -> (r: Quat)
    requires
        quat_in_range(a@),
        quat_in_range(b@),
    ensures
        r@ == quat_mul(a@, b@),
        -1_000_000_000_000 <= r@.w <= 1_000_000_000_000,
        -1_000_000_000_000 <= r@.x <= 1_000_000_000_000,
        -1_000_000_000_000 <= r@.y <= 1_000_000_000_000,
        -1_000_000_000_000 <= r@.z <= 1_000_000_000_000,
{
    proof {
        lemma_mul_bound(a.w as int, b.w as int, COMP_BOUND as int, COMP_BOUND as int);
        lemma_mul_bound(a.w as int, b.x as int, COMP_BOUND as int, COMP_BOUND as int);
        lemma_mul_bound(a.w as int, b.y as int, COMP_BOUND as int, COMP_BOUND as int);
        lemma_mul_bound(a.w as int, b.z as int, COMP_BOUND as int, COMP_BOUND as int);
        lemma_mul_bound(a.x as int, b.w as int, COMP_BOUND as int, COMP_BOUND as int);
        lemma_mul_bound(a.x as int, b.x as int, COMP_BOUND as int, COMP_BOUND as int);
        lemma_mul_bound(a.x as int, b.y as int, COMP_BOUND as int, COMP_BOUND as int);
        lemma_mul_bound(a.x as int, b.z as int, COMP_BOUND as int, COMP_BOUND as int);
        lemma_mul_bound(a.y as int, b.w as int, COMP_BOUND as int, COMP_BOUND as int);
        lemma_mul_bound(a.y as int, b.x as int, COMP_BOUND as int, COMP_BOUND as int);
        lemma_mul_bound(a.y as int, b.y as int, COMP_BOUND as int, COMP_BOUND as int);
        lemma_mul_bound(a.y as int, b.z as int, COMP_BOUND as int, COMP_BOUND as int);
        lemma_mul_bound(a.z as int, b.w as int, COMP_BOUND as int, COMP_BOUND as int);
        lemma_mul_bound(a.z as int, b.x as int, COMP_BOUND as int, COMP_BOUND as int);
        lemma_mul_bound(a.z as int, b.y as int, COMP_BOUND as int, COMP_BOUND as int);
        lemma_mul_bound(a.z as int, b.z as int, COMP_BOUND as int, COMP_BOUND as int);
    }
    Quat {
        w: a.w * b.w - a.x * b.x - a.y * b.y - a.z * b.z,
        x: a.w * b.x + a.x * b.w + a.y * b.z - a.z * b.y,
        y: a.w * b.y + a.y * b.w + a.z * b.x - a.x * b.z,
        z: a.w * b.z + a.z * b.w + a.x * b.y - a.y * b.x,
    }
}

/// Componentwise quaternion sum for intermediate values of the
/// degree-three formulas.
pub fn quat_sum(a: Quat, b: Quat) -> (r: Quat)
    requires
        -4_000_000_000_000_000_000 <= a@.w + b@.w <= 4_000_000_000_000_000_000,
        -4_000_000_000_000_000_000 <= a@.x + b@.x <= 4_000_000_000_000_000_000,
        -4_000_000_000_000_000_000 <= a@.y + b@.y <= 4_000_000_000_000_000_000,
        -4_000_000_000_000_000_000 <= a@.z + b@.z <= 4_000_000_000_000_000_000,
    ensures
        r@ == quat_add(a@, b@),
{
    Quat { w: a.w + b.w, x: a.x + b.x, y: a.y + b.y, z: a.z + b.z }
}

/// Executable rotation of a point: the vector part of `q ⊗ (0, v) ⊗ q*`.
pub fn rotate_point(q: Quat, v: Vec3) -> (r: Vec3)
    requires
        quat_in_range(q@),
        vec_in_range(v@),
    ensures
        r@ == point_rotation_spec(q@, v@),
        -3_000_000_000_000_000_000 <= r@.x <= 3_000_000_000_000_000_000,
        -3_000_000_000_000_000_000 <= r@.y <= 3_000_000_000_000_000_000,
        -3_000_000_000_000_000_000 <= r@.z <= 3_000_000_000_000_000_000,
{
    let t = quat_product(q, Quat { w: 0, x: v.x, y: v.y, z: v.z });
    let c = quat_conjugate(q);
    proof {
        lemma_mul_bound(t@.w, c@.x, 1_000_000_000_000, COMP_BOUND as int);
        lemma_mul_bound(t@.w, c@.y, 1_000_000_000_000, COMP_BOUND as int);
        lemma_mul_bound(t@.w, c@.z, 1_000_000_000_000, COMP_BOUND as int);
        lemma_mul_bound(t@.x, c@.w, 1_000_000_000_000, COMP_BOUND as int);
        lemma_mul_bound(t@.x, c@.y, 1_000_000_000_000, COMP_BOUND as int);
        lemma_mul_bound(t@.x, c@.z, 1_000_000_000_000, COMP_BOUND as int);
        lemma_mul_bound(t@.y, c@.w, 1_000_000_000_000, COMP_BOUND as int);
        lemma_mul_bound(t@.y, c@.x, 1_000_000_000_000, COMP_BOUND as int);
        lemma_mul_bound(t@.y, c@.z, 1_000_000_000_000, COMP_BOUND as int);
        lemma_mul_bound(t@.z, c@.w, 1_000_000_000_000, COMP_BOUND as int);
        lemma_mul_bound(t@.z, c@.x, 1_000_000_000_000, COMP_BOUND as int);
        lemma_mul_bound(t@.z, c@.y, 1_000_000_000_000, COMP_BOUND as int);
    }
    Vec3 {
        x: t.w * c.x + t.x * c.w + t.y * c.z - t.z * c.y,
        y: t.w * c.y + t.y * c.w + t.z * c.x - t.x * c.z,
        z: t.w * c.z + t.z * c.w + t.x * c.y - t.y * c.x,
    }
}

/// Executable rotation of the frame: the vector part of `q* ⊗ (0, v) ⊗ q`.
pub fn rotate_frame(q: Quat, v: Vec3) -> (r: Vec3)
    requires
        quat_in_range(q@),
        vec_in_range(v@),
    ensures
        r@ == frame_rotation_spec(q@, v@),
        -3_000_000_000_000_000_000 <= r@.x <= 3_000_000_000_000_000_000,
        -3_000_000_000_000_000_000 <= r@.y <= 3_000_000_000_000_000_000,
        -3_000_000_000_000_000_000 <= r@.z <= 3_000_000_000_000_000_000,
{
    let c = quat_conjugate(q);
    let t = quat_product(c, Quat { w: 0, x: v.x, y: v.y, z: v.z });
    proof {
        lemma_mul_bound(t@.w, q@.x, 1_000_000_000_000, COMP_BOUND as int);
        lemma_mul_bound(t@.w, q@.y, 1_000_000_000_000, COMP_BOUND as int);
        lemma_mul_bound(t@.w, q@.z, 1_000_000_000_000, COMP_BOUND as int);
        lemma_mul_bound(t@.x, q@.w, 1_000_000_000_000, COMP_BOUND as int);
        lemma_mul_bound(t@.x, q@.y, 1_000_000_000_000, COMP_BOUND as int);
        lemma_mul_bound(t@.x, q@.z, 1_000_000_000_000, COMP_BOUND as int);
        lemma_mul_bound(t@.y, q@.w, 1_000_000_000_000, COMP_BOUND as int);
        lemma_mul_bound(t@.y, q@.x, 1_000_000_000_000, COMP_BOUND as int);
        lemma_mul_bound(t@.y, q@.z, 1_000_000_000_000, COMP_BOUND as int);
        lemma_mul_bound(t@.z, q@.w, 1_000_000_000_000, COMP_BOUND as int);
        lemma_mul_bound(t@.z, q@.x, 1_000_000_000_000, COMP_BOUND as int);
        lemma_mul_bound(t@.z, q@.y, 1_000_000_000_000, COMP_BOUND as int);
    }
    Vec3 {
        x: t.w * q.x + t.x * q.w + t.y * q.z - t.z * q.y,
        y: t.w * q.y + t.y * q.w + t.z * q.x - t.x * q.z,
        z: t.w * q.z + t.z * q.w + t.x * q.y - t.y * q.x,
    }
}

} // verus!
