use vstd::prelude::*;

use crate::arith::div_trunc;

use crate::bivector::{bivector_cross, bivector_dot, BiVector};
use crate::number::{
    number_add, number_cross, number_div, number_dot, number_from_rotor, number_from_vector,
    number_mul, number_scale, number_sub, number_zero, Number,
};
use crate::rotor::{rotor_conjugate, rotor_mul, rotor_norm_squared, Rotor};
use crate::vector::{vector_dot, vector_rotate, vector_wedge, Vector};

verus! {

/// Halving an even number with Rust's division gives back its half.
proof fn lemma_halve_double(x: int)
    ensures
        div_trunc(2 * x, 2) == x,
{
    if x < 0 {
        assert((2 * (-x)) / 2 == -x);
    } else {
        assert((2 * x) / 2 == x);
    }
}

proof fn lemma_halve_scaled(n: Number<int>)
    ensures
        number_div(number_scale(n, 2), 2) == n,
{
    lemma_halve_double(n.e);
    lemma_halve_double(n.e1);
    lemma_halve_double(n.e2);
    lemma_halve_double(n.e3);
    lemma_halve_double(n.e12);
    lemma_halve_double(n.e31);
    lemma_halve_double(n.e23);
    lemma_halve_double(n.e123);
}

/// The geometric product of two numbers is the sum of its symmetric part
/// (`dot`) and its antisymmetric part (`cross`): `ab = a . b + a x b`.
pub proof fn lemma_product_is_dot_plus_cross(a: Number<int>, b: Number<int>)
    ensures
        number_mul(a, b) == number_add(number_dot(a, b), number_cross(a, b)),
{
}

/// `ab + ba = 2 (a . b)`, so halving it gives `dot` back exactly.
pub proof fn lemma_dot_is_symmetric_part(a: Number<int>, b: Number<int>)
    ensures
        number_add(number_mul(a, b), number_mul(b, a)) == number_scale(number_dot(a, b), 2),
        number_div(number_add(number_mul(a, b), number_mul(b, a)), 2) == number_dot(a, b),
{
    lemma_halve_scaled(number_dot(a, b));
}

/// `ab - ba = 2 (a x b)`, so halving it gives `cross` back exactly.
pub proof fn lemma_cross_is_antisymmetric_part(a: Number<int>, b: Number<int>)
    ensures
        number_sub(number_mul(a, b), number_mul(b, a)) == number_scale(number_cross(a, b), 2),
        number_div(number_sub(number_mul(a, b), number_mul(b, a)), 2) == number_cross(a, b),
{
    lemma_halve_scaled(number_cross(a, b));
}

/// The scalar product of vectors is symmetric.
pub proof fn lemma_vector_dot_symmetric(u: Vector<int>, v: Vector<int>)
    ensures
        vector_dot(u, v) == vector_dot(v, u),
{
}

/// The outer product is antisymmetric, so a vector wedged with itself is zero.
pub proof fn lemma_wedge_antisymmetric(u: Vector<int>, v: Vector<int>)
    ensures
        vector_wedge(u, v) == (BiVector {
            e12: -vector_wedge(v, u).e12,
            e31: -vector_wedge(v, u).e31,
            e23: -vector_wedge(v, u).e23,
        }),
        vector_wedge(u, u) == (BiVector::<int> { e12: 0, e31: 0, e23: 0 }),
{
}

/// The inner product of bivectors is symmetric and their commutator product antisymmetric.
pub proof fn lemma_bivector_products(a: BiVector<int>, b: BiVector<int>)
    ensures
        bivector_dot(a, b) == bivector_dot(b, a),
        bivector_cross(a, b) == (BiVector {
            e12: -bivector_cross(b, a).e12,
            e31: -bivector_cross(b, a).e31,
            e23: -bivector_cross(b, a).e23,
        }),
{
}

/// Reversing a rotor twice gives it back.
pub proof fn lemma_conjugate_involutive(r: Rotor<int>)
    ensures
        rotor_conjugate(rotor_conjugate(r)) == r,
{
}

/// A rotor times its reverse is the scalar `|R|^2`.
pub proof fn lemma_rotor_times_conjugate(r: Rotor<int>)
    ensures
        rotor_mul(r, rotor_conjugate(r)) == (Rotor { e: rotor_norm_squared(r), e12: 0, e31: 0, e23: 0 }),
{
    let (e, a, b, c) = (r.e, r.e12, r.e31, r.e23);
    assert(e * e - a * (-a) - b * (-b) - c * (-c) == e * e + a * a + b * b + c * c) by (nonlinear_arith);
    assert(e * (-a) + a * e + b * (-c) - c * (-b) == 0) by (nonlinear_arith);
    assert(e * (-b) - a * (-c) + b * e + c * (-a) == 0) by (nonlinear_arith);
    assert(e * (-c) + a * (-b) - b * (-a) + c * e == 0) by (nonlinear_arith);
}

/// `rotate` is the sandwich product `R v R~` computed in the full algebra.
pub proof fn lemma_rotate_is_sandwich(v: Vector<int>, r: Rotor<int>)
    ensures
        number_mul(
            number_mul(number_from_rotor(r), number_from_vector(v)),
            number_from_rotor(rotor_conjugate(r)),
        ) == number_from_vector(vector_rotate(v, r)),
{
    let (k, a, b, c) = (r.e, r.e12, r.e31, r.e23);
    let (x, y, z) = (v.e1, v.e2, v.e3);
    let rr = k * x + a * y - b * z;
    let ss = k * y + c * z - a * x;
    let tt = b * x + k * z - c * y;
    let uu = c * x + b * y + a * z;
    let p = number_mul(number_from_rotor(r), number_from_vector(v));
    assert(p == Number { e1: rr, e2: ss, e3: tt, e123: uu, ..number_zero() }) by (nonlinear_arith)
        requires
            p == number_mul(number_from_rotor(r), number_from_vector(v)),
            r == (Rotor { e: k, e12: a, e31: b, e23: c }),
            v == (Vector { e1: x, e2: y, e3: z }),
            rr == k * x + a * y - b * z,
            ss == k * y + c * z - a * x,
            tt == b * x + k * z - c * y,
            uu == c * x + b * y + a * z,
    ;
    let p2 = Number { e: 0, e1: rr, e2: ss, e3: tt, e12: 0, e31: 0, e23: 0, e123: uu };
    let c2 = Number { e: k, e1: 0, e2: 0, e3: 0, e12: -a, e31: -b, e23: -c, e123: 0 };
    assert(number_from_rotor(rotor_conjugate(r)) == c2);
    let q = number_mul(p2, c2);
    lemma_mul_neg(rr, a);
    lemma_mul_neg(rr, b);
    lemma_mul_neg(rr, c);
    lemma_mul_neg(ss, a);
    lemma_mul_neg(ss, b);
    lemma_mul_neg(ss, c);
    lemma_mul_neg(tt, a);
    lemma_mul_neg(tt, b);
    lemma_mul_neg(tt, c);
    lemma_mul_neg(uu, a);
    lemma_mul_neg(uu, b);
    lemma_mul_neg(uu, c);
    lemma_rotation_has_no_trivector(k, a, b, c, x, y, z);
    let w = vector_rotate(v, r);
    assert(q.e == 0);
    assert(q.e1 == w.e1);
    assert(q.e2 == w.e2);
    assert(q.e3 == w.e3);
    assert(q.e12 == 0);
    assert(q.e31 == 0);
    assert(q.e23 == 0);
    assert(q.e123 == 0);
    assert(q == number_from_vector(vector_rotate(v, r)));
}


/// The trivector part of `R v R~` vanishes.
proof fn lemma_rotation_has_no_trivector(k: int, a: int, b: int, c: int, x: int, y: int, z: int)
    ensures
        (k * x + a * y - b * z) * c + (k * y + c * z - a * x) * b + (b * x + k * z - c * y) * a - (c
            * x + b * y + a * z) * k == 0,
{
    lemma_distribute(k * x, a * y, b * z, c);
    lemma_distribute(k * y, c * z, a * x, b);
    lemma_distribute(b * x, k * z, c * y, a);
    lemma_distribute(c * x, b * y, -(a * z), k);
    lemma_mul_neg(k, a * z);
    assert((k * x) * c == (c * x) * k) by (nonlinear_arith);
    assert((a * y) * c == (c * y) * a) by (nonlinear_arith);
    assert((b * z) * c == (c * z) * b) by (nonlinear_arith);
    assert((k * y) * b == (b * y) * k) by (nonlinear_arith);
    assert((a * x) * b == (b * x) * a) by (nonlinear_arith);
    assert((k * z) * a == (a * z) * k) by (nonlinear_arith);
    assert(k * (a * z) == (a * z) * k) by (nonlinear_arith);
}

/// Rotating by a rotor `R` scales squared lengths by `|R|^4`: a rotor of
/// unit norm preserves lengths.
pub proof fn lemma_rotate_scales_length(v: Vector<int>, r: Rotor<int>)
    ensures
        vector_dot(vector_rotate(v, r), vector_rotate(v, r)) == rotor_norm_squared(r)
            * rotor_norm_squared(r) * vector_dot(v, v),
{
    let (k, a, b, c) = (r.e, r.e12, r.e31, r.e23);
    let (x, y, z) = (v.e1, v.e2, v.e3);
    let rr = k * x + a * y - b * z;
    let ss = k * y + c * z - a * x;
    let tt = b * x + k * z - c * y;
    let uu = c * x + b * y + a * z;
    let nr = rotor_norm_squared(r);
    let nv = vector_dot(v, v);
    // |R v|^2 = |R|^2 |v|^2
    lemma_four_square(k, a, b, c, x, -y, z, 0);
    lemma_negated_products(a, y);
    lemma_negated_products(k, y);
    lemma_negated_products(b, y);
    lemma_negated_products(c, y);
    lemma_negated_products(y, y);
    lemma_negated_products(ss, ss);
    assert(rr * rr + ss * ss + tt * tt + uu * uu == nr * nv);
    // |(R v) R~|^2 = |R v|^2 |R|^2, and its trivector part is zero
    lemma_four_square(rr, ss, tt, -uu, k, -a, b, c);
    lemma_negated_products(ss, a);
    lemma_negated_products(uu, c);
    lemma_negated_products(rr, a);
    lemma_negated_products(uu, b);
    lemma_negated_products(uu, a);
    lemma_negated_products(tt, a);
    lemma_negated_products(uu, k);
    lemma_negated_products(uu, uu);
    lemma_negated_products(a, a);
    lemma_rotation_has_no_trivector(k, a, b, c, x, y, z);
    let w = vector_rotate(v, r);
    assert(w.e1 * w.e1 + w.e2 * w.e2 + w.e3 * w.e3 == (nr * nv) * nr);
    assert((nr * nv) * nr == nr * nr * nv) by (nonlinear_arith);
}

proof fn lemma_distribute(p: int, q: int, s: int, m: int)
    ensures
        (p + q - s) * m == p * m + q * m - s * m,
{
    assert((p + q - s) * m == p * m + q * m - s * m) by (nonlinear_arith);
}

proof fn lemma_mul_neg(x: int, y: int)
    ensures
        x * (-y) == -(x * y),
        (-y) * x == -(x * y),
        y * x == x * y,
{
    assert(x * (-y) == -(x * y)) by (nonlinear_arith);
    assert((-y) * x == -(x * y)) by (nonlinear_arith);
    assert(y * x == x * y) by (nonlinear_arith);
}

#[verifier::spinoff_prover]
proof fn lemma_square_of_sum(a: int, b: int, c: int, d: int)
    ensures
        (a + b + c + d) * (a + b + c + d) == a * a + b * b + c * c + d * d + 2 * (a * b) + 2 * (a
            * c) + 2 * (a * d) + 2 * (b * c) + 2 * (b * d) + 2 * (c * d),
{
    assert((a + b + c + d) * (a + b + c + d) == a * a + b * b + c * c + d * d + 2 * (a * b) + 2 * (a
        * c) + 2 * (a * d) + 2 * (b * c) + 2 * (b * d) + 2 * (c * d)) by (nonlinear_arith);
}

proof fn lemma_regroup(x: int, y: int, u: int, v: int)
    ensures
        (x * y) * (u * v) == (x * u) * (y * v),
{
    assert((x * y) * (u * v) == (x * u) * (y * v)) by (nonlinear_arith);
}

#[verifier::spinoff_prover]
proof fn lemma_product_of_sums(a: int, b: int, c: int, d: int, e: int, f: int, g: int, h: int)
    ensures
        (a + b + c + d) * (e + f + g + h) == a * e + a * f + a * g + a * h + b * e + b * f + b * g
            + b * h + c * e + c * f + c * g + c * h + d * e + d * f + d * g + d * h,
{
    assert((a + b + c + d) * (e + f + g + h) == a * e + a * f + a * g + a * h + b * e + b * f + b * g
        + b * h + c * e + c * f + c * g + c * h + d * e + d * f + d * g + d * h) by (nonlinear_arith);
}

proof fn lemma_negated_products(u: int, v: int)
    ensures
        (-u) * (-v) == u * v,
        u * (-v) == -(u * v),
        (-u) * v == -(u * v),
{
    assert((-u) * (-v) == u * v) by (nonlinear_arith);
    assert(u * (-v) == -(u * v)) by (nonlinear_arith);
    assert((-u) * v == -(u * v)) by (nonlinear_arith);
}

/// Euler's four-square identity.
proof fn lemma_four_square(p0: int, p1: int, p2: int, p3: int, q0: int, q1: int, q2: int, q3: int)
    ensures
        (p0 * q0 - p1 * q1 - p2 * q2 - p3 * q3) * (p0 * q0 - p1 * q1 - p2 * q2 - p3 * q3)
        + (p0 * q1 + p1 * q0 + p2 * q3 - p3 * q2) * (p0 * q1 + p1 * q0 + p2 * q3 - p3 * q2)
        + (p0 * q2 - p1 * q3 + p2 * q0 + p3 * q1) * (p0 * q2 - p1 * q3 + p2 * q0 + p3 * q1)
        + (p0 * q3 + p1 * q2 - p2 * q1 + p3 * q0) * (p0 * q3 + p1 * q2 - p2 * q1 + p3 * q0)
        == (p0 * p0 + p1 * p1 + p2 * p2 + p3 * p3) * (q0 * q0 + q1 * q1 + q2 * q2 + q3 * q3),
{
    // Expand each square over its four products, regroup every product of
    // products as a product of p-terms times a product of q-terms, and the
    // cross terms cancel between the squares.
    lemma_square_of_sum((p0 * q0), (-(p1 * q1)), (-(p2 * q2)), (-(p3 * q3)));
    lemma_square_of_sum((p0 * q1), (p1 * q0), (p2 * q3), (-(p3 * q2)));
    lemma_square_of_sum((p0 * q2), (-(p1 * q3)), (p2 * q0), (p3 * q1));
    lemma_square_of_sum((p0 * q3), (p1 * q2), (-(p2 * q1)), (p3 * q0));
    lemma_negated_products(p0 * q0, p0 * q0);
    lemma_regroup(p0, q0, p0, q0);
    lemma_negated_products(p0 * q0, p1 * q1);
    lemma_regroup(p0, q0, p1, q1);
    lemma_negated_products(p0 * q0, p2 * q2);
    lemma_regroup(p0, q0, p2, q2);
    lemma_negated_products(p0 * q0, p3 * q3);
    lemma_regroup(p0, q0, p3, q3);
    lemma_negated_products(p0 * q1, p0 * q1);
    lemma_regroup(p0, q1, p0, q1);
    lemma_negated_products(p0 * q1, p1 * q0);
    lemma_regroup(p0, q1, p1, q0);
    lemma_negated_products(p0 * q1, p2 * q3);
    lemma_regroup(p0, q1, p2, q3);
    lemma_negated_products(p0 * q1, p3 * q2);
    lemma_regroup(p0, q1, p3, q2);
    lemma_negated_products(p0 * q2, p0 * q2);
    lemma_regroup(p0, q2, p0, q2);
    lemma_negated_products(p0 * q2, p1 * q3);
    lemma_regroup(p0, q2, p1, q3);
    lemma_negated_products(p0 * q2, p2 * q0);
    lemma_regroup(p0, q2, p2, q0);
    lemma_negated_products(p0 * q2, p3 * q1);
    lemma_regroup(p0, q2, p3, q1);
    lemma_negated_products(p0 * q3, p0 * q3);
    lemma_regroup(p0, q3, p0, q3);
    lemma_negated_products(p0 * q3, p1 * q2);
    lemma_regroup(p0, q3, p1, q2);
    lemma_negated_products(p0 * q3, p2 * q1);
    lemma_regroup(p0, q3, p2, q1);
    lemma_negated_products(p0 * q3, p3 * q0);
    lemma_regroup(p0, q3, p3, q0);
    lemma_negated_products(p1 * q0, p0 * q1);
    lemma_regroup(p1, q0, p0, q1);
    lemma_negated_products(p1 * q0, p1 * q0);
    lemma_regroup(p1, q0, p1, q0);
    lemma_negated_products(p1 * q0, p2 * q3);
    lemma_regroup(p1, q0, p2, q3);
    lemma_negated_products(p1 * q0, p3 * q2);
    lemma_regroup(p1, q0, p3, q2);
    lemma_negated_products(p1 * q1, p0 * q0);
    lemma_regroup(p1, q1, p0, q0);
    lemma_negated_products(p1 * q1, p1 * q1);
    lemma_regroup(p1, q1, p1, q1);
    lemma_negated_products(p1 * q1, p2 * q2);
    lemma_regroup(p1, q1, p2, q2);
    lemma_negated_products(p1 * q1, p3 * q3);
    lemma_regroup(p1, q1, p3, q3);
    lemma_negated_products(p1 * q2, p0 * q3);
    lemma_regroup(p1, q2, p0, q3);
    lemma_negated_products(p1 * q2, p1 * q2);
    lemma_regroup(p1, q2, p1, q2);
    lemma_negated_products(p1 * q2, p2 * q1);
    lemma_regroup(p1, q2, p2, q1);
    lemma_negated_products(p1 * q2, p3 * q0);
    lemma_regroup(p1, q2, p3, q0);
    lemma_negated_products(p1 * q3, p0 * q2);
    lemma_regroup(p1, q3, p0, q2);
    lemma_negated_products(p1 * q3, p1 * q3);
    lemma_regroup(p1, q3, p1, q3);
    lemma_negated_products(p1 * q3, p2 * q0);
    lemma_regroup(p1, q3, p2, q0);
    lemma_negated_products(p1 * q3, p3 * q1);
    lemma_regroup(p1, q3, p3, q1);
    lemma_negated_products(p2 * q0, p0 * q2);
    lemma_regroup(p2, q0, p0, q2);
    lemma_negated_products(p2 * q0, p1 * q3);
    lemma_regroup(p2, q0, p1, q3);
    lemma_negated_products(p2 * q0, p2 * q0);
    lemma_regroup(p2, q0, p2, q0);
    lemma_negated_products(p2 * q0, p3 * q1);
    lemma_regroup(p2, q0, p3, q1);
    lemma_negated_products(p2 * q1, p0 * q3);
    lemma_regroup(p2, q1, p0, q3);
    lemma_negated_products(p2 * q1, p1 * q2);
    lemma_regroup(p2, q1, p1, q2);
    lemma_negated_products(p2 * q1, p2 * q1);
    lemma_regroup(p2, q1, p2, q1);
    lemma_negated_products(p2 * q1, p3 * q0);
    lemma_regroup(p2, q1, p3, q0);
    lemma_negated_products(p2 * q2, p0 * q0);
    lemma_regroup(p2, q2, p0, q0);
    lemma_negated_products(p2 * q2, p1 * q1);
    lemma_regroup(p2, q2, p1, q1);
    lemma_negated_products(p2 * q2, p2 * q2);
    lemma_regroup(p2, q2, p2, q2);
    lemma_negated_products(p2 * q2, p3 * q3);
    lemma_regroup(p2, q2, p3, q3);
    lemma_negated_products(p2 * q3, p0 * q1);
    lemma_regroup(p2, q3, p0, q1);
    lemma_negated_products(p2 * q3, p1 * q0);
    lemma_regroup(p2, q3, p1, q0);
    lemma_negated_products(p2 * q3, p2 * q3);
    lemma_regroup(p2, q3, p2, q3);
    lemma_negated_products(p2 * q3, p3 * q2);
    lemma_regroup(p2, q3, p3, q2);
    lemma_negated_products(p3 * q0, p0 * q3);
    lemma_regroup(p3, q0, p0, q3);
    lemma_negated_products(p3 * q0, p1 * q2);
    lemma_regroup(p3, q0, p1, q2);
    lemma_negated_products(p3 * q0, p2 * q1);
    lemma_regroup(p3, q0, p2, q1);
    lemma_negated_products(p3 * q0, p3 * q0);
    lemma_regroup(p3, q0, p3, q0);
    lemma_negated_products(p3 * q1, p0 * q2);
    lemma_regroup(p3, q1, p0, q2);
    lemma_negated_products(p3 * q1, p1 * q3);
    lemma_regroup(p3, q1, p1, q3);
    lemma_negated_products(p3 * q1, p2 * q0);
    lemma_regroup(p3, q1, p2, q0);
    lemma_negated_products(p3 * q1, p3 * q1);
    lemma_regroup(p3, q1, p3, q1);
    lemma_negated_products(p3 * q2, p0 * q1);
    lemma_regroup(p3, q2, p0, q1);
    lemma_negated_products(p3 * q2, p1 * q0);
    lemma_regroup(p3, q2, p1, q0);
    lemma_negated_products(p3 * q2, p2 * q3);
    lemma_regroup(p3, q2, p2, q3);
    lemma_negated_products(p3 * q2, p3 * q2);
    lemma_regroup(p3, q2, p3, q2);
    lemma_negated_products(p3 * q3, p0 * q0);
    lemma_regroup(p3, q3, p0, q0);
    lemma_negated_products(p3 * q3, p1 * q1);
    lemma_regroup(p3, q3, p1, q1);
    lemma_negated_products(p3 * q3, p2 * q2);
    lemma_regroup(p3, q3, p2, q2);
    lemma_negated_products(p3 * q3, p3 * q3);
    lemma_regroup(p3, q3, p3, q3);
    lemma_product_of_sums(p0 * p0, p1 * p1, p2 * p2, p3 * p3, q0 * q0, q1 * q1, q2 * q2, q3 * q3);

}


} // verus!
