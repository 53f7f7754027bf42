use vstd::prelude::*;

use crate::bivector::{bivector_cross, bivector_dot, BiVector};
use crate::identities::lemma_rotate_is_sandwich;
use crate::number::{
    number_from_bivector, number_from_rotor, number_from_vector, number_mul, number_zero, Number,
};
use crate::rotor::{rotor_conjugate, rotor_mul, Rotor};
use crate::vec2::{number2_mul, vec2_mul, Number2, Vec2};
use crate::vector::{vector_add, vector_mul, vector_rotate, Vector};

verus! {

// Each component of `(a b) c` and of `a (b c)` expands, by distributivity and
// associativity of integer multiplication, to the same sum of 64 products of
// one component of each factor; one lemma per component keeps each query small.
proof fn lemma_associative_e(a: Number<int>, b: Number<int>, c: Number<int>)
    ensures
        number_mul(number_mul(a, b), c).e == number_mul(a, number_mul(b, c)).e,
{
    broadcast use vstd::arithmetic::mul::group_mul_is_distributive,
        vstd::arithmetic::mul::lemma_mul_is_associative,
        vstd::arithmetic::mul::lemma_mul_unary_negation;

}

proof fn lemma_associative_e1(a: Number<int>, b: Number<int>, c: Number<int>)
    ensures
        number_mul(number_mul(a, b), c).e1 == number_mul(a, number_mul(b, c)).e1,
{
    broadcast use vstd::arithmetic::mul::group_mul_is_distributive,
        vstd::arithmetic::mul::lemma_mul_is_associative,
        vstd::arithmetic::mul::lemma_mul_unary_negation;

}

proof fn lemma_associative_e2(a: Number<int>, b: Number<int>, c: Number<int>)
    ensures
        number_mul(number_mul(a, b), c).e2 == number_mul(a, number_mul(b, c)).e2,
{
    broadcast use vstd::arithmetic::mul::group_mul_is_distributive,
        vstd::arithmetic::mul::lemma_mul_is_associative,
        vstd::arithmetic::mul::lemma_mul_unary_negation;

}

proof fn lemma_associative_e3(a: Number<int>, b: Number<int>, c: Number<int>)
    ensures
        number_mul(number_mul(a, b), c).e3 == number_mul(a, number_mul(b, c)).e3,
{
    broadcast use vstd::arithmetic::mul::group_mul_is_distributive,
        vstd::arithmetic::mul::lemma_mul_is_associative,
        vstd::arithmetic::mul::lemma_mul_unary_negation;

}

proof fn lemma_associative_e12(a: Number<int>, b: Number<int>, c: Number<int>)
    ensures
        number_mul(number_mul(a, b), c).e12 == number_mul(a, number_mul(b, c)).e12,
{
    broadcast use vstd::arithmetic::mul::group_mul_is_distributive,
        vstd::arithmetic::mul::lemma_mul_is_associative,
        vstd::arithmetic::mul::lemma_mul_unary_negation;

}

proof fn lemma_associative_e31(a: Number<int>, b: Number<int>, c: Number<int>)
    ensures
        number_mul(number_mul(a, b), c).e31 == number_mul(a, number_mul(b, c)).e31,
{
    broadcast use vstd::arithmetic::mul::group_mul_is_distributive,
        vstd::arithmetic::mul::lemma_mul_is_associative,
        vstd::arithmetic::mul::lemma_mul_unary_negation;

}

proof fn lemma_associative_e23(a: Number<int>, b: Number<int>, c: Number<int>)
    ensures
        number_mul(number_mul(a, b), c).e23 == number_mul(a, number_mul(b, c)).e23,
{
    broadcast use vstd::arithmetic::mul::group_mul_is_distributive,
        vstd::arithmetic::mul::lemma_mul_is_associative,
        vstd::arithmetic::mul::lemma_mul_unary_negation;

}

proof fn lemma_associative_e123(a: Number<int>, b: Number<int>, c: Number<int>)
    ensures
        number_mul(number_mul(a, b), c).e123 == number_mul(a, number_mul(b, c)).e123,
{
    broadcast use vstd::arithmetic::mul::group_mul_is_distributive,
        vstd::arithmetic::mul::lemma_mul_is_associative,
        vstd::arithmetic::mul::lemma_mul_unary_negation;

}

/// The geometric product is associative: `(a b) c = a (b c)`.
pub proof fn lemma_mul_associative(a: Number<int>, b: Number<int>, c: Number<int>)
    ensures
        number_mul(number_mul(a, b), c) == number_mul(a, number_mul(b, c)),
{
    lemma_associative_e(a, b, c);
    lemma_associative_e1(a, b, c);
    lemma_associative_e2(a, b, c);
    lemma_associative_e3(a, b, c);
    lemma_associative_e12(a, b, c);
    lemma_associative_e31(a, b, c);
    lemma_associative_e23(a, b, c);
    lemma_associative_e123(a, b, c);
}

/// The scalar unit `E = 1` is a two-sided identity of the geometric product.
pub proof fn lemma_mul_unit(a: Number<int>)
    ensures
        number_mul(Number { e: 1, ..number_zero() }, a) == a,
        number_mul(a, Number { e: 1, ..number_zero() }) == a,
{
    broadcast use vstd::arithmetic::mul::group_mul_basics;

}

/// The product of two rotors, taken in the full algebra, is their rotor
/// product, and the product of their reverses in the other order is the
/// reverse of that product.
pub proof fn lemma_rotor_product_embeds(r2: Rotor<int>, r1: Rotor<int>)
    ensures
        number_mul(number_from_rotor(r2), number_from_rotor(r1)) == number_from_rotor(rotor_mul(r2, r1)),
        number_mul(number_from_rotor(rotor_conjugate(r1)), number_from_rotor(rotor_conjugate(r2)))
            == number_from_rotor(rotor_conjugate(rotor_mul(r2, r1))),
{
    broadcast use vstd::arithmetic::mul::group_mul_basics;

    let (k, a, b, c) = (r2.e, r2.e12, r2.e31, r2.e23);
    let (l, p, q, s) = (r1.e, r1.e12, r1.e31, r1.e23);
    let m = number_mul(number_from_rotor(rotor_conjugate(r1)), number_from_rotor(rotor_conjugate(r2)));
    let t = rotor_conjugate(rotor_mul(r2, r1));
    assert(m.e == t.e) by (nonlinear_arith)
        requires m.e == l * k - (-p) * (-a) - (-q) * (-b) - (-s) * (-c),
            t.e == k * l - a * p - b * q - c * s;
    assert(m.e12 == t.e12) by (nonlinear_arith)
        requires m.e12 == l * (-a) + (-p) * k + (-q) * (-c) - (-s) * (-b),
            t.e12 == -(k * p + a * l + b * s - c * q);
    assert(m.e31 == t.e31) by (nonlinear_arith)
        requires m.e31 == l * (-b) - (-p) * (-c) + (-q) * k + (-s) * (-a),
            t.e31 == -(k * q - a * s + b * l + c * p);
    assert(m.e23 == t.e23) by (nonlinear_arith)
        requires m.e23 == l * (-c) + (-p) * (-b) - (-q) * (-a) + (-s) * k,
            t.e23 == -(k * s + a * q - b * p + c * l);
}

/// Rotating by the unit rotor `1` leaves every vector unchanged.
pub proof fn lemma_rotate_identity(v: Vector<int>)
    ensures
        vector_rotate(v, Rotor { e: 1, e12: 0, e31: 0, e23: 0 }) == v,
{
    broadcast use vstd::arithmetic::mul::group_mul_basics;

}

/// Rotating by `r1` and then by `r2` is rotating by their product `r2 r1`.
pub proof fn lemma_rotate_compose(v: Vector<int>, r1: Rotor<int>, r2: Rotor<int>)
    ensures
        vector_rotate(vector_rotate(v, r1), r2) == vector_rotate(v, rotor_mul(r2, r1)),
{
    let n1 = number_from_rotor(r1);
    let n2 = number_from_rotor(r2);
    let c1 = number_from_rotor(rotor_conjugate(r1));
    let c2 = number_from_rotor(rotor_conjugate(r2));
    let x = number_from_vector(v);
    lemma_rotate_is_sandwich(v, r1);
    lemma_rotate_is_sandwich(vector_rotate(v, r1), r2);
    lemma_rotate_is_sandwich(v, rotor_mul(r2, r1));
    lemma_rotor_product_embeds(r2, r1);
    // (R2 ((R1 x) C1)) C2 = ((R2 R1) x) (C1 C2)
    lemma_mul_associative(n1, x, c1);
    lemma_mul_associative(n2, n1, number_mul(x, c1));
    lemma_mul_associative(number_mul(n2, n1), x, c1);
    lemma_mul_associative(number_mul(number_mul(n2, n1), x), c1, c2);
    let w = vector_rotate(vector_rotate(v, r1), r2);
    let u = vector_rotate(v, rotor_mul(r2, r1));
    assert(number_from_vector(w) == number_from_vector(u));
    assert(w.e1 == number_from_vector(w).e1 && u.e1 == number_from_vector(u).e1);
}

/// Rotation is linear: rotating a sum is summing the rotations.
pub proof fn lemma_rotate_additive(v: Vector<int>, w: Vector<int>, r: Rotor<int>)
    ensures
        vector_rotate(vector_add(v, w), r) == vector_add(vector_rotate(v, r), vector_rotate(w, r)),
{
    broadcast use vstd::arithmetic::mul::group_mul_is_distributive,
        vstd::arithmetic::mul::lemma_mul_is_associative;

}

/// The product of two vectors, taken in the full algebra, is their scalar
/// product plus their outer product: the rotor that `vector_mul` gives.
pub proof fn lemma_vector_product_embeds(a: Vector<int>, b: Vector<int>)
    ensures
        number_mul(number_from_vector(a), number_from_vector(b)) == number_from_rotor(vector_mul(a, b)),
{
    broadcast use vstd::arithmetic::mul::group_mul_basics;

}

/// The product of two bivectors, taken in the full algebra, is their inner
/// product plus their commutator product: `A B = A . B + A x B`.
pub proof fn lemma_bivector_product_embeds(a: BiVector<int>, b: BiVector<int>)
    ensures
        number_mul(number_from_bivector(a), number_from_bivector(b)) == (Number {
            e: bivector_dot(a, b),
            e12: bivector_cross(a, b).e12,
            e31: bivector_cross(a, b).e31,
            e23: bivector_cross(a, b).e23,
            ..number_zero()
        }),
{
    broadcast use vstd::arithmetic::mul::group_mul_basics;

}

/// A 2D number as a number of the 3D algebra, in the plane of `e1` and `e2`.
pub open spec fn number_from_number2(n: Number2<int>) -> Number<int> {
    Number { e: n.e, e1: n.e1, e2: n.e2, e12: n.e12, ..number_zero() }
}

/// The 2D geometric product is the 3D one restricted to the plane of `e1`
/// and `e2`, and the product of two 2D vectors is their 2D product as numbers.
pub proof fn lemma_plane_product_embeds(a: Number2<int>, b: Number2<int>, u: Vec2<int>, v: Vec2<int>)
    ensures
        number_mul(number_from_number2(a), number_from_number2(b)) == number_from_number2(
            number2_mul(a, b),
        ),
        vec2_mul(u, v) == number2_mul(
            Number2 { e: 0, e1: u.e1, e2: u.e2, e12: 0 },
            Number2 { e: 0, e1: v.e1, e2: v.e2, e12: 0 },
        ),
{
    broadcast use vstd::arithmetic::mul::group_mul_basics;

}

/// The 2D geometric product is associative.
pub proof fn lemma_plane_product_associative(a: Number2<int>, b: Number2<int>, c: Number2<int>)
    ensures
        number2_mul(number2_mul(a, b), c) == number2_mul(a, number2_mul(b, c)),
{
    lemma_plane_product_embeds(a, b, Vec2 { e1: 0, e2: 0 }, Vec2 { e1: 0, e2: 0 });
    lemma_plane_product_embeds(number2_mul(a, b), c, Vec2 { e1: 0, e2: 0 }, Vec2 { e1: 0, e2: 0 });
    lemma_plane_product_embeds(b, c, Vec2 { e1: 0, e2: 0 }, Vec2 { e1: 0, e2: 0 });
    lemma_plane_product_embeds(a, number2_mul(b, c), Vec2 { e1: 0, e2: 0 }, Vec2 { e1: 0, e2: 0 });
    lemma_mul_associative(number_from_number2(a), number_from_number2(b), number_from_number2(c));
    let l = number2_mul(number2_mul(a, b), c);
    let r = number2_mul(a, number2_mul(b, c));
    assert(number_from_number2(l) == number_from_number2(r));
    assert(l.e == number_from_number2(l).e && r.e == number_from_number2(r).e);
}

} // verus!
