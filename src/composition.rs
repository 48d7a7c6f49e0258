//! The closed form of the transform matrix, in exact integer arithmetic.
//!
//! The composed transform is
//! `T * Roff * Rp * Rpre * R * Rpost⁻¹ * Rp⁻¹ * Soff * Sp * S * Sp⁻¹`.
//! Its closed form has the linear block `F * diag(s)` with
//! `F = Rpre * R * Rpost⁻¹`, and the translation
//! `t + ro + rp - F rp + F so + F sp - F (s ∘ sp)`. The laws below show that
//! the closed form applied to a point agrees with applying the eleven factors
//! one after the other, and what follows for the usual special cases.
use vstd::prelude::*;

verus! {

/// A 3D vector of exact values.
pub struct Vec3i {
    pub x: int,
    pub y: int,
    pub z: int,
}

/// A 3x3 matrix of exact values; `mRC` is the entry at row `R`, column `C`.
pub struct Mat3i {
    pub m00: int,
    pub m01: int,
    pub m02: int,
    pub m10: int,
    pub m11: int,
    pub m12: int,
    pub m20: int,
    pub m21: int,
    pub m22: int,
}

pub open spec fn plus(u: Vec3i, v: Vec3i) -> Vec3i {
    Vec3i { x: u.x + v.x, y: u.y + v.y, z: u.z + v.z }
}

pub open spec fn minus(u: Vec3i, v: Vec3i) -> Vec3i {
    Vec3i { x: u.x - v.x, y: u.y - v.y, z: u.z - v.z }
}

/// Component-wise product: scaling `v` by the factors in `s`.
pub open spec fn hadamard(s: Vec3i, v: Vec3i) -> Vec3i {
    Vec3i { x: s.x * v.x, y: s.y * v.y, z: s.z * v.z }
}

/// The matrix `a` applied to the vector `v`.
pub open spec fn apply(a: Mat3i, v: Vec3i) -> Vec3i {
    Vec3i {
        x: a.m00 * v.x + a.m01 * v.y + a.m02 * v.z,
        y: a.m10 * v.x + a.m11 * v.y + a.m12 * v.z,
        z: a.m20 * v.x + a.m21 * v.y + a.m22 * v.z,
    }
}

/// The matrix product `a * b`.
pub open spec fn mat_mul(a: Mat3i, b: Mat3i) -> Mat3i {
    Mat3i {
        m00: a.m00 * b.m00 + a.m01 * b.m10 + a.m02 * b.m20,
        m01: a.m00 * b.m01 + a.m01 * b.m11 + a.m02 * b.m21,
        m02: a.m00 * b.m02 + a.m01 * b.m12 + a.m02 * b.m22,
        m10: a.m10 * b.m00 + a.m11 * b.m10 + a.m12 * b.m20,
        m11: a.m10 * b.m01 + a.m11 * b.m11 + a.m12 * b.m21,
        m12: a.m10 * b.m02 + a.m11 * b.m12 + a.m12 * b.m22,
        m20: a.m20 * b.m00 + a.m21 * b.m10 + a.m22 * b.m20,
        m21: a.m20 * b.m01 + a.m21 * b.m11 + a.m22 * b.m21,
        m22: a.m20 * b.m02 + a.m21 * b.m12 + a.m22 * b.m22,
    }
}

/// `a * diag(s)`: each column of `a` scaled by the matching factor.
pub open spec fn scale_columns(a: Mat3i, s: Vec3i) -> Mat3i {
    Mat3i {
        m00: a.m00 * s.x,
        m01: a.m01 * s.y,
        m02: a.m02 * s.z,
        m10: a.m10 * s.x,
        m11: a.m11 * s.y,
        m12: a.m12 * s.z,
        m20: a.m20 * s.x,
        m21: a.m21 * s.y,
        m22: a.m22 * s.z,
    }
}

pub open spec fn identity3() -> Mat3i {
    Mat3i { m00: 1, m01: 0, m02: 0, m10: 0, m11: 1, m12: 0, m20: 0, m21: 0, m22: 1 }
}

pub open spec fn zero3() -> Vec3i {
    Vec3i { x: 0, y: 0, z: 0 }
}

/// The parameters of a transform, with each rotation given by its matrix and
/// the post-rotation by the inverse of its matrix.
pub struct Parameters {
    pub position: Vec3i,
    pub rotation: Mat3i,
    pub scale: Vec3i,
    pub pre_rotation: Mat3i,
    pub post_rotation_inverse: Mat3i,
    pub rotation_offset: Vec3i,
    pub rotation_pivot: Vec3i,
    pub scaling_offset: Vec3i,
    pub scaling_pivot: Vec3i,
}

/// `F = Rpre * R * Rpost⁻¹`.
pub open spec fn combined_rotation(p: Parameters) -> Mat3i {
    mat_mul(mat_mul(p.pre_rotation, p.rotation), p.post_rotation_inverse)
}

/// Upper-left block of the closed form: `F * diag(s)`.
pub open spec fn closed_linear(p: Parameters) -> Mat3i {
    scale_columns(combined_rotation(p), p.scale)
}

/// Translation column of the closed form.
pub open spec fn closed_translation(p: Parameters) -> Vec3i {
    let f = combined_rotation(p);
    minus(
        plus(
            plus(
                minus(plus(plus(p.rotation_offset, p.rotation_pivot), p.position), apply(f, p.rotation_pivot)),
                apply(f, p.scaling_offset),
            ),
            apply(f, p.scaling_pivot),
        ),
        apply(f, hadamard(p.scale, p.scaling_pivot)),
    )
}

/// The closed-form matrix applied to the point `q`.
pub open spec fn closed_apply(p: Parameters, q: Vec3i) -> Vec3i {
    plus(apply(closed_linear(p), q), closed_translation(p))
}

/// The eleven factors applied to `q` one after the other, rightmost first.
pub open spec fn factors_apply(p: Parameters, q: Vec3i) -> Vec3i {
    let q1 = minus(q, p.scaling_pivot);
    let q2 = hadamard(p.scale, q1);
    let q3 = plus(q2, p.scaling_pivot);
    let q4 = plus(q3, p.scaling_offset);
    let q5 = minus(q4, p.rotation_pivot);
    let q6 = apply(p.post_rotation_inverse, q5);
    let q7 = apply(p.rotation, q6);
    let q8 = apply(p.pre_rotation, q7);
    let q9 = plus(q8, p.rotation_pivot);
    let q10 = plus(q9, p.rotation_offset);
    plus(q10, p.position)
}

proof fn lemma_row_assoc(a0: int, a1: int, a2: int, b: Mat3i, x: int, y: int, z: int)
    ensures
        (a0 * b.m00 + a1 * b.m10 + a2 * b.m20) * x + (a0 * b.m01 + a1 * b.m11 + a2 * b.m21) * y
            + (a0 * b.m02 + a1 * b.m12 + a2 * b.m22) * z
            == a0 * (b.m00 * x + b.m01 * y + b.m02 * z) + a1 * (b.m10 * x + b.m11 * y + b.m12 * z)
            + a2 * (b.m20 * x + b.m21 * y + b.m22 * z),
{
    let (b00, b01, b02, b10, b11, b12, b20, b21, b22) = (b.m00, b.m01, b.m02, b.m10, b.m11, b.m12, b.m20, b.m21, b.m22);
    lemma_distribute_left(a0 * b00, a1 * b10, a2 * b20, x);
    lemma_distribute_left(a0 * b01, a1 * b11, a2 * b21, y);
    lemma_distribute_left(a0 * b02, a1 * b12, a2 * b22, z);
    lemma_distribute_right(a0, b00 * x, b01 * y, b02 * z);
    lemma_distribute_right(a1, b10 * x, b11 * y, b12 * z);
    lemma_distribute_right(a2, b20 * x, b21 * y, b22 * z);
    lemma_mul3_assoc(a0, b00, x);
    lemma_mul3_assoc(a0, b01, y);
    lemma_mul3_assoc(a0, b02, z);
    lemma_mul3_assoc(a1, b10, x);
    lemma_mul3_assoc(a1, b11, y);
    lemma_mul3_assoc(a1, b12, z);
    lemma_mul3_assoc(a2, b20, x);
    lemma_mul3_assoc(a2, b21, y);
    lemma_mul3_assoc(a2, b22, z);
}

proof fn lemma_distribute_left(p: int, q: int, r: int, x: int)
    ensures
        (p + q + r) * x == p * x + q * x + r * x,
{
    assert((p + q + r) * x == p * x + q * x + r * x) by (nonlinear_arith);
}

proof fn lemma_distribute_right(a: int, u: int, v: int, w: int)
    ensures
        a * (u + v + w) == a * u + a * v + a * w,
{
    assert(a * (u + v + w) == a * u + a * v + a * w) by (nonlinear_arith);
}

proof fn lemma_apply_mul(a: Mat3i, b: Mat3i, v: Vec3i)
    ensures
        apply(mat_mul(a, b), v) == apply(a, apply(b, v)),
{
    lemma_row_assoc(a.m00, a.m01, a.m02, b, v.x, v.y, v.z);
    lemma_row_assoc(a.m10, a.m11, a.m12, b, v.x, v.y, v.z);
    lemma_row_assoc(a.m20, a.m21, a.m22, b, v.x, v.y, v.z);
}

proof fn lemma_apply_linear(a: Mat3i, u: Vec3i, v: Vec3i)
    ensures
        apply(a, plus(u, v)) == plus(apply(a, u), apply(a, v)),
        apply(a, minus(u, v)) == minus(apply(a, u), apply(a, v)),
{
    assert(apply(a, plus(u, v)).x == plus(apply(a, u), apply(a, v)).x) by (nonlinear_arith);
    assert(apply(a, plus(u, v)).y == plus(apply(a, u), apply(a, v)).y) by (nonlinear_arith);
    assert(apply(a, plus(u, v)).z == plus(apply(a, u), apply(a, v)).z) by (nonlinear_arith);
    assert(apply(a, minus(u, v)).x == minus(apply(a, u), apply(a, v)).x) by (nonlinear_arith);
    assert(apply(a, minus(u, v)).y == minus(apply(a, u), apply(a, v)).y) by (nonlinear_arith);
    assert(apply(a, minus(u, v)).z == minus(apply(a, u), apply(a, v)).z) by (nonlinear_arith);
}

proof fn lemma_mul3_assoc(a: int, b: int, c: int)
    ensures
        a * b * c == a * (b * c),
{
    assert(a * b * c == a * (b * c)) by (nonlinear_arith);
}

proof fn lemma_scale_columns(a: Mat3i, s: Vec3i, v: Vec3i)
    ensures
        apply(scale_columns(a, s), v) == apply(a, hadamard(s, v)),
{
    lemma_mul3_assoc(a.m00, s.x, v.x);
    lemma_mul3_assoc(a.m01, s.y, v.y);
    lemma_mul3_assoc(a.m02, s.z, v.z);
    lemma_mul3_assoc(a.m10, s.x, v.x);
    lemma_mul3_assoc(a.m11, s.y, v.y);
    lemma_mul3_assoc(a.m12, s.z, v.z);
    lemma_mul3_assoc(a.m20, s.x, v.x);
    lemma_mul3_assoc(a.m21, s.y, v.y);
    lemma_mul3_assoc(a.m22, s.z, v.z);
}

proof fn lemma_hadamard_minus(s: Vec3i, u: Vec3i, v: Vec3i)
    ensures
        hadamard(s, minus(u, v)) == minus(hadamard(s, u), hadamard(s, v)),
{
    assert(hadamard(s, minus(u, v)).x == minus(hadamard(s, u), hadamard(s, v)).x) by (nonlinear_arith);
    assert(hadamard(s, minus(u, v)).y == minus(hadamard(s, u), hadamard(s, v)).y) by (nonlinear_arith);
    assert(hadamard(s, minus(u, v)).z == minus(hadamard(s, u), hadamard(s, v)).z) by (nonlinear_arith);
}

/// The closed form agrees with the product of the eleven factors: applied to
/// any point, the closed-form matrix gives what applying
/// `Sp⁻¹, S, Sp, Soff, Rp⁻¹, Rpost⁻¹, R, Rpre, Rp, Roff, T` in turn gives.
pub proof fn lemma_closed_form_is_product(p: Parameters, q: Vec3i)
    ensures
        closed_apply(p, q) == factors_apply(p, q),
{
    let f = combined_rotation(p);
    let sq = hadamard(p.scale, q);
    let ssp = hadamard(p.scale, p.scaling_pivot);
    let q5 = minus(plus(plus(hadamard(p.scale, minus(q, p.scaling_pivot)), p.scaling_pivot), p.scaling_offset), p.rotation_pivot);
    lemma_hadamard_minus(p.scale, q, p.scaling_pivot);
    lemma_apply_mul(mat_mul(p.pre_rotation, p.rotation), p.post_rotation_inverse, q5);
    lemma_apply_mul(p.pre_rotation, p.rotation, apply(p.post_rotation_inverse, q5));
    lemma_scale_columns(f, p.scale, q);
    let d = minus(sq, ssp);
    lemma_apply_linear(f, minus(plus(plus(d, p.scaling_pivot), p.scaling_offset), p.rotation_pivot), zero3());
    lemma_apply_linear(f, plus(plus(d, p.scaling_pivot), p.scaling_offset), p.rotation_pivot);
    lemma_apply_linear(f, plus(d, p.scaling_pivot), p.scaling_offset);
    lemma_apply_linear(f, d, p.scaling_pivot);
    lemma_apply_linear(f, sq, ssp);
    assert(q5 == minus(plus(plus(d, p.scaling_pivot), p.scaling_offset), p.rotation_pivot));
    assert(apply(f, q5) == apply(p.pre_rotation, apply(p.rotation, apply(p.post_rotation_inverse, q5))));
}

/// Parameters with the given translation, rotation and scale, every other
/// parameter left at its neutral value.
pub open spec fn trs_parameters(t: Vec3i, r: Mat3i, s: Vec3i) -> Parameters {
    Parameters {
        position: t,
        rotation: r,
        scale: s,
        pre_rotation: identity3(),
        post_rotation_inverse: identity3(),
        rotation_offset: zero3(),
        rotation_pivot: zero3(),
        scaling_offset: zero3(),
        scaling_pivot: zero3(),
    }
}

/// The identity transform's parameters.
pub open spec fn identity_parameters() -> Parameters {
    trs_parameters(zero3(), identity3(), Vec3i { x: 1, y: 1, z: 1 })
}

/// The rotation by a quarter turn about the z axis.
pub open spec fn quarter_turn_z() -> Mat3i {
    Mat3i { m00: 0, m01: -1, m02: 0, m10: 1, m11: 0, m12: 0, m20: 0, m21: 0, m22: 1 }
}

proof fn lemma_unit_mul(x: int)
    ensures
        1 * x == x,
        x * 1 == x,
        0 * x == 0,
        x * 0 == 0,
        -1 * x == -x,
{
    assert(-1 * x == -x) by (nonlinear_arith);
}

/// With pivots, offsets, pre- and post-rotation left neutral, the closed form
/// is the plain `translate(t) * rotate(r) * scale(s)`: linear block `r * diag(s)`
/// and translation `t`.
pub proof fn lemma_trs_closed_form(t: Vec3i, r: Mat3i, s: Vec3i)
    ensures
        closed_linear(trs_parameters(t, r, s)) == scale_columns(r, s),
        closed_translation(trs_parameters(t, r, s)) == t,
{
    let p = trs_parameters(t, r, s);
    lemma_unit_mul(r.m00);
    lemma_unit_mul(r.m01);
    lemma_unit_mul(r.m02);
    lemma_unit_mul(r.m10);
    lemma_unit_mul(r.m11);
    lemma_unit_mul(r.m12);
    lemma_unit_mul(r.m20);
    lemma_unit_mul(r.m21);
    lemma_unit_mul(r.m22);
    assert(mat_mul(identity3(), r) == r);
    assert(mat_mul(r, identity3()) == r);
    assert(combined_rotation(p) == r);
}

/// The identity transform's closed form is the identity matrix: linear block
/// the identity, no translation, and every point left where it is.
pub proof fn lemma_identity_closed_form(q: Vec3i)
    ensures
        closed_linear(identity_parameters()) == identity3(),
        closed_translation(identity_parameters()) == zero3(),
        closed_apply(identity_parameters(), q) == q,
{
    lemma_trs_closed_form(zero3(), identity3(), Vec3i { x: 1, y: 1, z: 1 });
}

/// Rotating about a pivot leaves the pivot where it is; with a quarter turn
/// about z, a point at distance `d` from the pivot along x goes to distance `d`
/// along y.
pub proof fn lemma_rotation_about_pivot(r: Mat3i, pivot: Vec3i, d: int)
    ensures
        closed_apply(Parameters { rotation_pivot: pivot, ..trs_parameters(zero3(), r, Vec3i { x: 1, y: 1, z: 1 }) }, pivot)
            == pivot,
        closed_apply(
            Parameters { rotation_pivot: pivot, ..trs_parameters(zero3(), quarter_turn_z(), Vec3i { x: 1, y: 1, z: 1 }) },
            plus(pivot, Vec3i { x: d, y: 0, z: 0 }),
        ) == plus(pivot, Vec3i { x: 0, y: d, z: 0 }),
{
    let p = Parameters { rotation_pivot: pivot, ..trs_parameters(zero3(), r, Vec3i { x: 1, y: 1, z: 1 }) };
    lemma_closed_form_is_product(p, pivot);
    lemma_unit_mul(pivot.x);
    lemma_unit_mul(pivot.y);
    lemma_unit_mul(pivot.z);
    lemma_unit_mul(0);
    lemma_unit_mul(r.m00);
    lemma_unit_mul(r.m01);
    lemma_unit_mul(r.m02);
    lemma_unit_mul(r.m10);
    lemma_unit_mul(r.m11);
    lemma_unit_mul(r.m12);
    lemma_unit_mul(r.m20);
    lemma_unit_mul(r.m21);
    lemma_unit_mul(r.m22);
    let p2 = Parameters { rotation_pivot: pivot, ..trs_parameters(zero3(), quarter_turn_z(), Vec3i { x: 1, y: 1, z: 1 }) };
    let q = plus(pivot, Vec3i { x: d, y: 0, z: 0 });
    lemma_closed_form_is_product(p2, q);
    lemma_unit_mul(q.x);
    lemma_unit_mul(q.y);
    lemma_unit_mul(q.z);
    lemma_unit_mul(d);
    lemma_unit_mul(0);
}

/// Translation (1, 2, 3), a quarter turn about z and scale (2, 1, 1) take the
/// point (1, 0, 0) to (1, 4, 3).
pub proof fn lemma_translate_rotate_scale_example()
    ensures
        closed_apply(
            trs_parameters(Vec3i { x: 1, y: 2, z: 3 }, quarter_turn_z(), Vec3i { x: 2, y: 1, z: 1 }),
            Vec3i { x: 1, y: 0, z: 0 },
        ) == (Vec3i { x: 1, y: 4, z: 3 }),
{
    lemma_trs_closed_form(Vec3i { x: 1, y: 2, z: 3 }, quarter_turn_z(), Vec3i { x: 2, y: 1, z: 1 });
}

} // verus!
