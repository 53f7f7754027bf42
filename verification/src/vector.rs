use vstd::prelude::*;

use crate::arith::{div_i32, div_ok, div_trunc, fits_i32, mul_i32, mul_wide, narrow};
use crate::bivector::{bivector_fits, BiVector};
use crate::rotor::{rotor_fits, Rotor};

verus! {

/// A 3D vector `e1 e1 + e2 e2 + e3 e3`.
#[derive(Copy, Clone, Debug, PartialEq, Eq)]
pub struct Vector<T> {
    pub e1: T,
    pub e2: T,
    pub e3: T,
}

impl View for Vector<i32> {
    type V = Vector<int>;

    open spec fn view(&self) -> Vector<int> {
        Vector { e1: self.e1 as int, e2: self.e2 as int, e3: self.e3 as int }
    }
}

/// Every component of the vector fits in an `i32`.
pub open spec fn vector_fits(v: Vector<int>) -> bool {
    fits_i32(v.e1) && fits_i32(v.e2) && fits_i32(v.e3)
}

pub open spec fn vector_add(a: Vector<int>, b: Vector<int>) -> Vector<int> {
    Vector { e1: a.e1 + b.e1, e2: a.e2 + b.e2, e3: a.e3 + b.e3 }
}

pub open spec fn vector_sub(a: Vector<int>, b: Vector<int>) -> Vector<int> {
    Vector { e1: a.e1 - b.e1, e2: a.e2 - b.e2, e3: a.e3 - b.e3 }
}

/// Every component multiplied by `k`.
pub open spec fn vector_scale(a: Vector<int>, k: int) -> Vector<int> {
    Vector { e1: a.e1 * k, e2: a.e2 * k, e3: a.e3 * k }
}

/// Every component divided by `k`, rounding towards zero.
pub open spec fn vector_div(a: Vector<int>, k: int) -> Vector<int> {
    Vector { e1: div_trunc(a.e1, k), e2: div_trunc(a.e2, k), e3: div_trunc(a.e3, k) }
}

/// The scalar product of two vectors.
pub open spec fn vector_dot(a: Vector<int>, b: Vector<int>) -> int {
    a.e1 * b.e1 + a.e2 * b.e2 + a.e3 * b.e3
}

/// The outer product of two vectors: the plane they span, with its area and orientation.
pub open spec fn vector_wedge(a: Vector<int>, b: Vector<int>) -> BiVector<int> {
    BiVector {
        e12: a.e1 * b.e2 - a.e2 * b.e1,
        e31: a.e3 * b.e1 - a.e1 * b.e3,
        e23: a.e2 * b.e3 - a.e3 * b.e2,
    }
}

/// The geometric product of two vectors: scalar part `a . b`, bivector part `a ^ b`.
pub open spec fn vector_mul(a: Vector<int>, b: Vector<int>) -> Rotor<int> {
    let w = vector_wedge(a, b);
    Rotor { e: vector_dot(a, b), e12: w.e12, e31: w.e31, e23: w.e23 }
}

/// The sandwich product `R v R~`, expanded in the rotor's components.
pub open spec fn vector_rotate(v: Vector<int>, rotor: Rotor<int>) -> Vector<int> {
    let k = rotor.e;
    let a = rotor.e12;
    let b = rotor.e31;
    let c = rotor.e23;
    let x = v.e1;
    let y = v.e2;
    let z = v.e3;
    let r = k * x + a * y - b * z;
    let s = k * y + c * z - a * x;
    let t = b * x + k * z - c * y;
    let u = c * x + b * y + a * z;
    Vector {
        e1: r * k + s * a - t * b + u * c,
        e2: s * k + t * c + u * b - r * a,
        e3: r * b - s * c + t * k + u * a,
    }
}

impl<T> Vector<T> {
    pub fn new(e1: T, e2: T, e3: T) -> (r: Self)
        ensures
            r == (Vector { e1, e2, e3 }),
    {
        Self { e1, e2, e3 }
    }

}

impl<T: Copy> Vector<T> {
    /// A vector from its components in the order `[e1, e2, e3]`.
    pub fn from_slice(slice: [T; 3]) -> (r: Self)
        ensures
            r == (Vector { e1: slice[0], e2: slice[1], e3: slice[2] }),
    {
        Self::new(slice[0], slice[1], slice[2])
    }
}

impl Vector<i32> {
    pub fn zero() -> (r: Self)
        ensures
            r@ == (Vector::<int> { e1: 0, e2: 0, e3: 0 }),
    {
        Vector { e1: 0, e2: 0, e3: 0 }
    }

    pub fn e1() -> (r: Self)
        ensures
            r@ == (Vector::<int> { e1: 1, e2: 0, e3: 0 }),
    {
        Vector { e1: 1, e2: 0, e3: 0 }
    }

    pub fn e2() -> (r: Self)
        ensures
            r@ == (Vector::<int> { e1: 0, e2: 1, e3: 0 }),
    {
        Vector { e1: 0, e2: 1, e3: 0 }
    }

    pub fn e3() -> (r: Self)
        ensures
            r@ == (Vector::<int> { e1: 0, e2: 0, e3: 1 }),
    {
        Vector { e1: 0, e2: 0, e3: 1 }
    }

    pub fn scalar_product(self, rhs: i32) -> (r: Self)
        requires
            vector_fits(vector_scale(self@, rhs as int)),
        ensures
            r@ == vector_scale(self@, rhs as int),
    {
        Self {
            e1: narrow(mul_i32(self.e1, rhs)),
            e2: narrow(mul_i32(self.e2, rhs)),
            e3: narrow(mul_i32(self.e3, rhs)),
        }
    }

    pub fn scalar_divide(self, rhs: i32) -> (r: Self)
        requires
            div_ok(self.e1 as int, rhs as int),
            div_ok(self.e2 as int, rhs as int),
            div_ok(self.e3 as int, rhs as int),
        ensures
            r@ == vector_div(self@, rhs as int),
    {
        Self { e1: div_i32(self.e1, rhs), e2: div_i32(self.e2, rhs), e3: div_i32(self.e3, rhs) }
    }

    /// The scalar product of two vectors.
    pub fn dot(self, rhs: Self) -> (r: i32)
        requires
            fits_i32(vector_dot(self@, rhs@)),
        ensures
            r == vector_dot(self@, rhs@),
    {
        let a = self;
        let b = rhs;
        narrow(mul_i32(a.e1, b.e1) + mul_i32(a.e2, b.e2) + mul_i32(a.e3, b.e3))
    }

    /// The outer product of two vectors.
    pub fn wedge(self, rhs: Self) -> (r: BiVector<i32>)
        requires
            bivector_fits(vector_wedge(self@, rhs@)),
        ensures
            r@ == vector_wedge(self@, rhs@),
    {
        let a = self;
        let b = rhs;
        BiVector {
            e12: narrow(mul_i32(a.e1, b.e2) - mul_i32(a.e2, b.e1)),
            e31: narrow(mul_i32(a.e3, b.e1) - mul_i32(a.e1, b.e3)),
            e23: narrow(mul_i32(a.e2, b.e3) - mul_i32(a.e3, b.e2)),
        }
    }

    /// Rotates the vector by the rotor: the vector part of `R v R~`. For a
    /// rotor of unit norm this is a rotation; otherwise the result is also
    /// scaled by the square of the rotor's norm.
    pub fn rotate(self, rotor: Rotor<i32>) -> (r: Self)
        requires
            vector_fits(vector_rotate(self@, rotor@)),
        ensures
            r@ == vector_rotate(self@, rotor@),
    {
        let k = rotor.e;
        let a = rotor.e12;
        let b = rotor.e31;
        let c = rotor.e23;

        let x = self.e1;
        let y = self.e2;
        let z = self.e3;

        let r = mul_i32(k, x) + mul_i32(a, y) - mul_i32(b, z);
        let s = mul_i32(k, y) + mul_i32(c, z) - mul_i32(a, x);
        let t = mul_i32(b, x) + mul_i32(k, z) - mul_i32(c, y);
        let u = mul_i32(c, x) + mul_i32(b, y) + mul_i32(a, z);

        Vector {
            e1: narrow(mul_wide(r, k) + mul_wide(s, a) - mul_wide(t, b) + mul_wide(u, c)),
            e2: narrow(mul_wide(s, k) + mul_wide(t, c) + mul_wide(u, b) - mul_wide(r, a)),
            e3: narrow(mul_wide(r, b) - mul_wide(s, c) + mul_wide(t, k) + mul_wide(u, a)),
        }
    }
}

impl core::ops::Add for Vector<i32> {
    type Output = Self;

    fn add(self, rhs: Self) -> (r: Self)
        ensures
            r@ == vector_add(self@, rhs@),
    {
        Self { e1: self.e1 + rhs.e1, e2: self.e2 + rhs.e2, e3: self.e3 + rhs.e3 }
    }
}

impl vstd::std_specs::ops::AddSpecImpl for Vector<i32> {
    open spec fn obeys_add_spec() -> bool {
        true
    }

    open spec fn add_req(self, rhs: Self) -> bool {
        vector_fits(vector_add(self@, rhs@))
    }

    open spec fn add_spec(self, rhs: Self) -> Self {
        Vector {
            e1: (self.e1 + rhs.e1) as i32,
            e2: (self.e2 + rhs.e2) as i32,
            e3: (self.e3 + rhs.e3) as i32,
        }
    }
}

impl core::ops::Sub for Vector<i32> {
    type Output = Self;

    fn sub(self, rhs: Self) -> (r: Self)
        ensures
            r@ == vector_sub(self@, rhs@),
    {
        Self { e1: self.e1 - rhs.e1, e2: self.e2 - rhs.e2, e3: self.e3 - rhs.e3 }
    }
}

impl vstd::std_specs::ops::SubSpecImpl for Vector<i32> {
    open spec fn obeys_sub_spec() -> bool {
        true
    }

    open spec fn sub_req(self, rhs: Self) -> bool {
        vector_fits(vector_sub(self@, rhs@))
    }

    open spec fn sub_spec(self, rhs: Self) -> Self {
        Vector {
            e1: (self.e1 - rhs.e1) as i32,
            e2: (self.e2 - rhs.e2) as i32,
            e3: (self.e3 - rhs.e3) as i32,
        }
    }
}

impl core::ops::Mul for Vector<i32> {
    type Output = Rotor<i32>;

    /// The geometric product of two vectors.
    fn mul(self, rhs: Self) -> (r: Rotor<i32>)
        ensures
            r@ == vector_mul(self@, rhs@),
    {
        let e = self.dot(rhs);
        let bv = self.wedge(rhs);
        Rotor { e, e12: bv.e12, e31: bv.e31, e23: bv.e23 }
    }
}

impl vstd::std_specs::ops::MulSpecImpl for Vector<i32> {
    open spec fn obeys_mul_spec() -> bool {
        true
    }

    open spec fn mul_req(self, rhs: Self) -> bool {
        rotor_fits(vector_mul(self@, rhs@))
    }

    open spec fn mul_spec(self, rhs: Self) -> Rotor<i32> {
        let r = vector_mul(self@, rhs@);
        Rotor { e: r.e as i32, e12: r.e12 as i32, e31: r.e31 as i32, e23: r.e23 as i32 }
    }
}

} // verus!
