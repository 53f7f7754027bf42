use bengine::bivector::BiVector;
use bengine::number::Number;
use bengine::rotor::Rotor;
use bengine::vec2::{Number2, Vec2};
use bengine::vector::Vector;

const A: Number<i32> = Number {
    e: 2,
    e1: 3,
    e2: 5,
    e3: 7,
    e12: 11,
    e31: 13,
    e23: 17,
    e123: 19,
};

const B: Number<i32> = Number {
    e: 23,
    e1: 29,
    e2: 31,
    e3: 37,
    e12: 41,
    e31: 43,
    e23: 47,
    e123: 53,
};

#[test]
fn geometric_product() {
    assert_eq!(A * B, A.dot(B) + A.cross(B));
}

#[test]
fn dot_product() {
    assert_eq!((A * B + B * A).scalar_divide(2), A.dot(B));
}

#[test]
fn cross_product() {
    assert_eq!((A * B - B * A).scalar_divide(2), A.cross(B));
}

#[test]
fn orthogonal_vectors() {
    // u,v are orthogonal vectors
    let u = Vector {
        e1: 2,
        e2: -3,
        e3: -1,
    };

    let v = Vector {
        e1: 3,
        e2: -2,
        e3: 4,
    };

    let zero_bv = BiVector {
        e12: 0,
        e31: 0,
        e23: 0,
    };
    assert_eq!(u.dot(v), v.dot(u));
    assert_eq!(u.wedge(u), zero_bv);
    assert_eq!(v.wedge(v), zero_bv);
}

#[test]
fn rotate_by_half_turn_in_the_e12_plane() {
    // The rotor of a half turn in the e1e2 plane is e12.
    let a = Vector::new(1, 0, 0);
    let b = Vector::new(0, 1, 0);
    let plane = a.wedge(b);
    assert_eq!(plane, BiVector { e12: 1, e31: 0, e23: 0 });
    let r = Rotor { e: 0, e12: 1, e31: 0, e23: 0 };
    let v = Vector::new(1, 0, 0);
    assert_eq!(v.rotate(r).e1, -1);
    assert_eq!(v.rotate(r), Vector::new(-1, 0, 0));
    assert_eq!(
        (Number::from(r) * Number::from(v) * Number::from(r.conjugate())).e1,
        v.rotate(r).e1
    );
}

#[test]
fn rotate_matches_sandwich_product() {
    let r = Rotor { e: 2, e12: -1, e31: 3, e23: 1 };
    let v = Vector::new(4, -2, 5);
    let sandwich = Number::from(r) * Number::from(v) * Number::from(r.conjugate());
    assert_eq!(sandwich, Number::from(v.rotate(r)));
}

#[test]
fn rotate_scales_by_squared_rotor_norm() {
    // |R|^2 = 4 + 1 + 9 + 1 = 15, so lengths grow by 15.
    let r = Rotor { e: 2, e12: -1, e31: 3, e23: 1 };
    let v = Vector::new(4, -2, 5);
    let w = v.rotate(r);
    assert_eq!(w.dot(w), 15 * 15 * v.dot(v));
}

#[test]
fn rotate_by_quarter_turn_rotor() {
    // (1 + e12) rotates by a quarter turn and scales by |R|^2 = 2.
    let r = Rotor { e: 1, e12: 1, e31: 0, e23: 0 };
    assert_eq!(Vector::new(1, 0, 0).rotate(r), Vector::new(0, -2, 0));
    assert_eq!(Vector::new(0, 0, 3).rotate(r), Vector::new(0, 0, 6));
}

#[test]
fn vector_products() {
    let u = Vector::new(1, 2, 3);
    let v = Vector::new(4, 5, 6);
    assert_eq!(u.dot(v), 32);
    assert_eq!(u.wedge(v), BiVector { e12: -3, e31: 6, e23: -3 });
    assert_eq!(v.wedge(u), BiVector { e12: 3, e31: -6, e23: 3 });
    assert_eq!(u * v, Rotor { e: 32, e12: -3, e31: 6, e23: -3 });
}

#[test]
fn vector_arithmetic() {
    let u = Vector::new(1, -2, 3);
    let v = Vector::new(4, 5, -6);
    assert_eq!(u + v, Vector::new(5, 3, -3));
    assert_eq!(u - v, Vector::new(-3, -7, 9));
    assert_eq!(u.scalar_product(-3), Vector::new(-3, 6, -9));
    assert_eq!(Vector::new(7, -7, 6).scalar_divide(2), Vector::new(3, -3, 3));
    assert_eq!(Vector::new(7, -7, 6).scalar_divide(-2), Vector::new(-3, 3, -3));
    assert_eq!(Vector::from_slice([9, 8, 7]), Vector::new(9, 8, 7));
    assert_eq!(Vector::<i32>::zero(), Vector::new(0, 0, 0));
    assert_eq!(Vector::<i32>::e1() + Vector::e2() + Vector::e3(), Vector::new(1, 1, 1));
}

#[test]
fn large_components_do_not_overflow_intermediates() {
    // Each product overflows i32 but the result fits.
    let u = Vector::new(i32::MAX, i32::MAX, i32::MIN);
    let v = Vector::new(1, -1, 0);
    assert_eq!(u.dot(v), 0);
    assert_eq!(u.wedge(u), BiVector { e12: 0, e31: 0, e23: 0 });
}

#[test]
fn bivector_products() {
    let a = BiVector { e12: 1, e31: 2, e23: 3 };
    let b = BiVector { e12: 4, e31: 5, e23: 6 };
    assert_eq!(a.dot(b), -32);
    assert_eq!(a.dot(b), b.dot(a));
    assert_eq!(a.cross(b), BiVector { e12: -3, e31: 6, e23: -3 });
    assert_eq!(b.cross(a), BiVector { e12: 3, e31: -6, e23: 3 });
}

#[test]
fn unit_bivectors_square_to_minus_one() {
    assert_eq!(Number::e12() * Number::e12(), Number::e().scalar_product(-1));
    assert_eq!(Number::e31() * Number::e31(), Number::e().scalar_product(-1));
    assert_eq!(Number::e23() * Number::e23(), Number::e().scalar_product(-1));
    assert_eq!(Number::e123() * Number::e123(), Number::e().scalar_product(-1));
    assert_eq!(Number::e1() * Number::e1(), Number::e());
    assert_eq!(Number::e1() * Number::e2(), Number::e12());
    assert_eq!(Number::e2() * Number::e1(), Number::e12().scalar_product(-1));
    assert_eq!(Number::e12() * Number::e3(), Number::e123());
}

#[test]
fn rotor_products() {
    let r = Rotor { e: 1, e12: 2, e31: 3, e23: 4 };
    assert_eq!(r.conjugate(), Rotor { e: 1, e12: -2, e31: -3, e23: -4 });
    assert_eq!(r.conjugate().conjugate(), r);
    assert_eq!(r * r.conjugate(), Rotor { e: 30, e12: 0, e31: 0, e23: 0 });
    let s = Rotor { e: 5, e12: 6, e31: 7, e23: 8 };
    let as_numbers = Number::from(r) * Number::from(s);
    let product = r * s;
    assert_eq!(as_numbers, Number::from(product));
}

#[test]
fn number_conversions_and_defaults() {
    let v = Vector::new(1, 2, 3);
    let n = Number::from(v);
    assert_eq!(n, Number { e: 0, e1: 1, e2: 2, e3: 3, e12: 0, e31: 0, e23: 0, e123: 0 });
    let b = BiVector { e12: 4, e31: 5, e23: 6 };
    assert_eq!(Number::from(b), Number { e: 0, e1: 0, e2: 0, e3: 0, e12: 4, e31: 5, e23: 6, e123: 0 });
    let r = Rotor { e: 7, e12: 8, e31: 9, e23: 10 };
    assert_eq!(Number::from(r), Number { e: 7, e1: 0, e2: 0, e3: 0, e12: 8, e31: 9, e23: 10, e123: 0 });
    assert_eq!(Number::<i32>::default(), Number::zero());
    assert_eq!(A + Number::zero(), A);
    assert_eq!(A - A, Number::zero());
    assert_eq!(A.scalar_product(2).scalar_divide(2), A);
}

#[test]
fn two_dimensional_algebra() {
    let a = Vec2::new(1, 2);
    let b = Vec2::new(3, 4);
    assert_eq!(a * b, Number2 { e: 11, e1: 0, e2: 0, e12: -2 });
    assert_eq!(a + b, Vec2::new(4, 6));
    assert_eq!(a - b, Vec2::new(-2, -2));
    let mut c = a;
    c.add_assign(b);
    assert_eq!(c, Vec2::new(4, 6));
    c.sub_assign(b);
    assert_eq!(c, a);
    assert_eq!(a.scalar_product(3), Vec2::new(3, 6));
    assert_eq!(Vec2::new(-5, 5).scalar_divide(2), Vec2::new(-2, 2));
    assert_eq!(Vec2::<i32>::default(), Vec2::zero());
    assert_eq!(Vec2::x_hat() + Vec2::y_hat(), Vec2::new(1, 1));
    let e12 = Number2::e12();
    assert_eq!(e12 * e12, Number2 { e: -1, e1: 0, e2: 0, e12: 0 });
    assert_eq!(Number2::e1() * Number2::e2(), e12);
    let p = Number2 { e: 1, e1: 2, e2: 3, e12: 4 };
    let q = Number2 { e: 5, e1: 6, e2: 7, e12: 8 };
    assert_eq!(p * q, Number2 { e: 6, e1: 20, e2: 14, e12: 24 });
    assert_eq!(p + q, Number2 { e: 6, e1: 8, e2: 10, e12: 12 });
    assert_eq!(q - p, Number2 { e: 4, e1: 4, e2: 4, e12: 4 });
    assert_eq!(p.scalar_product(2), Number2 { e: 2, e1: 4, e2: 6, e12: 8 });
    assert_eq!(q.scalar_divide(3), Number2 { e: 1, e1: 2, e2: 2, e12: 2 });
    assert_eq!(Number2::<i32>::default(), Number2::zero());
    assert_eq!(Number2::e() * p, p);
}

const C: Number<i32> = Number {
    e: -5,
    e1: 4,
    e2: -3,
    e3: 2,
    e12: -1,
    e31: 6,
    e23: -7,
    e123: 8,
};

#[test]
fn geometric_product_is_associative() {
    assert_eq!((A * B) * C, A * (B * C));
    assert_eq!((C * A) * B, C * (A * B));
}

#[test]
fn scalar_unit_is_two_sided_identity() {
    assert_eq!(Number::e() * A, A);
    assert_eq!(A * Number::e(), A);
    assert_eq!(Number::e() * C, C);
}

#[test]
fn rotation_laws() {
    let v = Vector { e1: 2, e2: -3, e3: 5 };
    let w = Vector { e1: -1, e2: 4, e3: 1 };
    let r1 = Rotor { e: 1, e12: 2, e31: -1, e23: 3 };
    let r2 = Rotor { e: -2, e12: 1, e31: 1, e23: -1 };
    let unit = Rotor { e: 1, e12: 0, e31: 0, e23: 0 };
    assert_eq!(v.rotate(unit), v);
    assert_eq!(v.rotate(r1).rotate(r2), v.rotate(r2 * r1));
    assert_eq!((v + w).rotate(r1), v.rotate(r1) + w.rotate(r1));
}
