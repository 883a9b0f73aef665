//! The laws of the dual-quaternion algebra, proved over the views.

use vstd::prelude::*;

use crate::algebra::{QuatView, Vec3View, quat_add, quat_conj, quat_mul, quat_vec, vec_scale};
use crate::DualQuaternionView;
use crate::dq_identity;
use crate::dq_lift_point;
use crate::dq_mul;
use crate::dq_conj;
use crate::dq_conj_dual_num;
use crate::dq_norm_sq;
use crate::dq_of_num;
use crate::dq_shift;
use crate::vector_translation_spec;

verus! {

/// The identity pose is a two-sided identity of the product.
pub proof fn lemma_mul_identity(a: DualQuaternionView)
    ensures
        dq_mul(dq_identity(), a) == a,
        dq_mul(a, dq_identity()) == a,
{
}

/// The algebra conjugate is an involution.
pub proof fn lemma_conj_involution(a: DualQuaternionView)
    ensures
        dq_conj(dq_conj(a)) == a,
{
}

/// The dual-number conjugate is an involution.
pub proof fn lemma_conj_dual_num_involution(a: DualQuaternionView)
    ensures
        dq_conj_dual_num(dq_conj_dual_num(a)) == a,
{
}

/// The division-algebra law behind the inverse: a dual quaternion times its
/// algebra conjugate is exactly its squared norm, seen as a scalar dual
/// number — for every `a`, unit or not. The inverse
/// `conj(a)·(norm(a))⁻²` follows by dual-number division, which is outside
/// the exact integer carrier.
pub proof fn lemma_mul_conj_is_norm_squared(a: DualQuaternionView)
    ensures
        dq_mul(a, dq_conj(a)) == dq_of_num(dq_norm_sq(a)),
{
    let p = a.primary;
    let d = a.dual;
    assert(p.w * p.w - p.x * (-p.x) - p.y * (-p.y) - p.z * (-p.z)
        == p.w * p.w + p.x * p.x + p.y * p.y + p.z * p.z) by (nonlinear_arith);
    assert(p.w * (-p.x) + p.x * p.w + p.y * (-p.z) - p.z * (-p.y) == 0) by (nonlinear_arith);
    assert(p.w * (-p.y) + p.y * p.w + p.z * (-p.x) - p.x * (-p.z) == 0) by (nonlinear_arith);
    assert(p.w * (-p.z) + p.z * p.w + p.x * (-p.y) - p.y * (-p.x) == 0) by (nonlinear_arith);
    assert(p.w * d.w - p.x * (-d.x) - p.y * (-d.y) - p.z * (-d.z)
        + (d.w * p.w - d.x * (-p.x) - d.y * (-p.y) - d.z * (-p.z))
        == 2 * (p.w * d.w + p.x * d.x + p.y * d.y + p.z * d.z)) by (nonlinear_arith);
    assert(p.w * (-d.x) + p.x * d.w + p.y * (-d.z) - p.z * (-d.y)
        + (d.w * (-p.x) + d.x * p.w + d.y * (-p.z) - d.z * (-p.y)) == 0) by (nonlinear_arith);
    assert(p.w * (-d.y) + p.y * d.w + p.z * (-d.x) - p.x * (-d.z)
        + (d.w * (-p.y) + d.y * p.w + d.z * (-p.x) - d.x * (-p.z)) == 0) by (nonlinear_arith);
    assert(p.w * (-d.z) + p.z * d.w + p.x * (-d.y) - p.y * (-d.x)
        + (d.w * (-p.z) + d.z * p.w + d.x * (-p.y) - d.y * (-p.x)) == 0) by (nonlinear_arith);
}

/// The Hamilton product distributes over addition in its left factor.
pub proof fn lemma_quat_mul_add_left(a: QuatView, b: QuatView, c: QuatView)
    ensures
        quat_mul(quat_add(a, b), c) == quat_add(quat_mul(a, c), quat_mul(b, c)),
{
    vstd::arithmetic::mul::lemma_mul_is_distributive_add_other_way(c.w, a.w, b.w);
    vstd::arithmetic::mul::lemma_mul_is_distributive_add_other_way(c.x, a.w, b.w);
    vstd::arithmetic::mul::lemma_mul_is_distributive_add_other_way(c.y, a.w, b.w);
    vstd::arithmetic::mul::lemma_mul_is_distributive_add_other_way(c.z, a.w, b.w);
    vstd::arithmetic::mul::lemma_mul_is_distributive_add_other_way(c.w, a.x, b.x);
    vstd::arithmetic::mul::lemma_mul_is_distributive_add_other_way(c.x, a.x, b.x);
    vstd::arithmetic::mul::lemma_mul_is_distributive_add_other_way(c.y, a.x, b.x);
    vstd::arithmetic::mul::lemma_mul_is_distributive_add_other_way(c.z, a.x, b.x);
    vstd::arithmetic::mul::lemma_mul_is_distributive_add_other_way(c.w, a.y, b.y);
    vstd::arithmetic::mul::lemma_mul_is_distributive_add_other_way(c.x, a.y, b.y);
    vstd::arithmetic::mul::lemma_mul_is_distributive_add_other_way(c.y, a.y, b.y);
    vstd::arithmetic::mul::lemma_mul_is_distributive_add_other_way(c.z, a.y, b.y);
    vstd::arithmetic::mul::lemma_mul_is_distributive_add_other_way(c.w, a.z, b.z);
    vstd::arithmetic::mul::lemma_mul_is_distributive_add_other_way(c.x, a.z, b.z);
    vstd::arithmetic::mul::lemma_mul_is_distributive_add_other_way(c.y, a.z, b.z);
    vstd::arithmetic::mul::lemma_mul_is_distributive_add_other_way(c.z, a.z, b.z);
}

/// The non-rotation term of the transform formulas is what the sandwich
/// produces: `q ⊗ (−conj(d)) + d ⊗ conj(q)` is twice the shift vector.
pub proof fn lemma_shift_from_sandwich(a: DualQuaternionView)
    ensures
        quat_vec(
            quat_add(
                quat_mul(a.primary, crate::algebra::quat_neg(quat_conj(a.dual))),
                quat_mul(a.dual, quat_conj(a.primary)),
            ),
        ) == vec_scale(2, dq_shift(a)),
{
    let p = a.primary;
    let d = a.dual;
    assert(p.w * d.x + p.x * (-d.w) + p.y * d.z - p.z * d.y
        + (d.w * (-p.x) + d.x * p.w + d.y * (-p.z) - d.z * (-p.y))
        == 2 * (p.w * d.x - d.w * p.x + (p.y * d.z - p.z * d.y))) by (nonlinear_arith);
    assert(p.w * d.y + p.y * (-d.w) + p.z * d.x - p.x * d.z
        + (d.w * (-p.y) + d.y * p.w + d.z * (-p.x) - d.x * (-p.z))
        == 2 * (p.w * d.y - d.w * p.y + (p.z * d.x - p.x * d.z))) by (nonlinear_arith);
    assert(p.w * d.z + p.z * (-d.w) + p.x * d.y - p.y * d.x
        + (d.w * (-p.z) + d.z * p.w + d.x * (-p.y) - d.y * (-p.x))
        == 2 * (p.w * d.z - d.w * p.z + (p.x * d.y - p.y * d.x))) by (nonlinear_arith);
}

/// The transform shortcut agrees with the canonical sandwich product for
/// every dual quaternion `a`: the vector part of the dual part of
/// `a ⊗ (1, p) ⊗ conj_dual_num(conj(a))` is exactly what
/// `vector_translation` computes.
pub proof fn lemma_vector_translation_is_sandwich(a: DualQuaternionView, p: Vec3View)
    ensures
        vector_translation_spec(a, p) == quat_vec(
            dq_mul(dq_mul(a, dq_lift_point(p)), dq_conj_dual_num(dq_conj(a))).dual,
        ),
{
    let q = a.primary;
    let d = a.dual;
    let u = quat_mul(q, crate::algebra::quat_pure(p));
    let m1 = dq_mul(a, dq_lift_point(p));
    assert(m1.primary == q);
    assert(m1.dual == quat_add(u, d));
    lemma_quat_mul_add_left(u, d, quat_conj(q));
    lemma_shift_from_sandwich(a);
}

/// Zero motion is the identity: a pose whose rotation is the identity
/// versor and whose doubled dual part vanishes — what `from_quat_vector`
/// builds from the zero translation — is the identity pose.
pub proof fn lemma_zero_motion_is_identity(a: DualQuaternionView)
    requires
        a.primary == crate::algebra::quat_identity(),
        crate::algebra::quat_scale(2, a.dual) == crate::algebra::quat_zero(),
    ensures
        a == dq_identity(),
{
}

} // verus!
