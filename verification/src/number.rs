use vstd::prelude::*;

use crate::arith::{div_i32, div_ok, div_trunc, fits_i32, mul_i32, narrow};
use crate::bivector::BiVector;
use crate::rotor::Rotor;
use crate::vector::Vector;

verus! {

/// A general element of the 3D geometric algebra: scalar, vector, bivector
/// and trivector (pseudoscalar) parts.
#[derive(Copy, Clone, Debug, PartialEq, Eq)]
pub struct Number<T> {
    pub e: T,
    pub e1: T,
    pub e2: T,
    pub e3: T,
    pub e12: T,
    pub e31: T,
    pub e23: T,
    pub e123: T,
}

impl View for Number<i32> {
    type V = Number<int>;

    open spec fn view(&self) -> Number<int> {
        Number {
            e: self.e as int,
            e1: self.e1 as int,
            e2: self.e2 as int,
            e3: self.e3 as int,
            e12: self.e12 as int,
            e31: self.e31 as int,
            e23: self.e23 as int,
            e123: self.e123 as int,
        }
    }
}

/// Every component of the number fits in an `i32`.
pub open spec fn number_fits(n: Number<int>) -> bool {
    &&& fits_i32(n.e)
    &&& fits_i32(n.e1)
    &&& fits_i32(n.e2)
    &&& fits_i32(n.e3)
    &&& fits_i32(n.e12)
    &&& fits_i32(n.e31)
    &&& fits_i32(n.e23)
    &&& fits_i32(n.e123)
}

/// The `i32` number whose components are those of `n`.
pub open spec fn number_narrow(n: Number<int>) -> Number<i32> {
    Number {
        e: n.e as i32,
        e1: n.e1 as i32,
        e2: n.e2 as i32,
        e3: n.e3 as i32,
        e12: n.e12 as i32,
        e31: n.e31 as i32,
        e23: n.e23 as i32,
        e123: n.e123 as i32,
    }
}

/// The number with every component zero.
pub open spec fn number_zero() -> Number<int> {
    Number { e: 0, e1: 0, e2: 0, e3: 0, e12: 0, e31: 0, e23: 0, e123: 0 }
}

/// A vector as a general number.
pub open spec fn number_from_vector(v: Vector<int>) -> Number<int> {
    Number { e1: v.e1, e2: v.e2, e3: v.e3, ..number_zero() }
}

/// A bivector as a general number.
pub open spec fn number_from_bivector(b: BiVector<int>) -> Number<int> {
    Number { e12: b.e12, e31: b.e31, e23: b.e23, ..number_zero() }
}

/// A rotor as a general number.
pub open spec fn number_from_rotor(r: Rotor<int>) -> Number<int> {
    Number { e: r.e, e12: r.e12, e31: r.e31, e23: r.e23, ..number_zero() }
}

pub open spec fn number_add(a: Number<int>, b: Number<int>) -> Number<int> {
    Number {
        e: a.e + b.e,
        e1: a.e1 + b.e1,
        e2: a.e2 + b.e2,
        e3: a.e3 + b.e3,
        e12: a.e12 + b.e12,
        e31: a.e31 + b.e31,
        e23: a.e23 + b.e23,
        e123: a.e123 + b.e123,
    }
}

pub open spec fn number_sub(a: Number<int>, b: Number<int>) -> Number<int> {
    Number {
        e: a.e - b.e,
        e1: a.e1 - b.e1,
        e2: a.e2 - b.e2,
        e3: a.e3 - b.e3,
        e12: a.e12 - b.e12,
        e31: a.e31 - b.e31,
        e23: a.e23 - b.e23,
        e123: a.e123 - b.e123,
    }
}

/// Every component multiplied by `k`.
pub open spec fn number_scale(a: Number<int>, k: int) -> Number<int> {
    Number {
        e: a.e * k,
        e1: a.e1 * k,
        e2: a.e2 * k,
        e3: a.e3 * k,
        e12: a.e12 * k,
        e31: a.e31 * k,
        e23: a.e23 * k,
        e123: a.e123 * k,
    }
}

/// Every component divided by `k`, rounding towards zero.
pub open spec fn number_div(a: Number<int>, k: int) -> Number<int> {
    Number {
        e: div_trunc(a.e, k),
        e1: div_trunc(a.e1, k),
        e2: div_trunc(a.e2, k),
        e3: div_trunc(a.e3, k),
        e12: div_trunc(a.e12, k),
        e31: div_trunc(a.e31, k),
        e23: div_trunc(a.e23, k),
        e123: div_trunc(a.e123, k),
    }
}

/// Every component of `a` can be divided by `k` in `i32`.
pub open spec fn number_div_ok(a: Number<int>, k: int) -> bool {
    &&& div_ok(a.e, k)
    &&& div_ok(a.e1, k)
    &&& div_ok(a.e2, k)
    &&& div_ok(a.e3, k)
    &&& div_ok(a.e12, k)
    &&& div_ok(a.e31, k)
    &&& div_ok(a.e23, k)
    &&& div_ok(a.e123, k)
}

/// The geometric product, with `e1^2 = e2^2 = e3^2 = 1`.
pub open spec fn number_mul(a: Number<int>, b: Number<int>) -> Number<int> {
    Number {
        e: a.e * b.e + a.e1 * b.e1 + a.e2 * b.e2 + a.e3 * b.e3 - a.e12 * b.e12 - a.e31 * b.e31
            - a.e23 * b.e23 - a.e123 * b.e123,
        e1: a.e * b.e1 + a.e1 * b.e - a.e2 * b.e12 + a.e3 * b.e31 + a.e12 * b.e2 - a.e31 * b.e3
            - a.e23 * b.e123 - a.e123 * b.e23,
        e2: a.e * b.e2 + a.e1 * b.e12 + a.e2 * b.e - a.e3 * b.e23 - a.e12 * b.e1 - a.e31 * b.e123
            + a.e23 * b.e3 - a.e123 * b.e31,
        e3: a.e * b.e3 - a.e1 * b.e31 + a.e2 * b.e23 + a.e3 * b.e - a.e12 * b.e123 + a.e31 * b.e1
            - a.e23 * b.e2 - a.e123 * b.e12,
        e12: a.e * b.e12 + a.e1 * b.e2 - a.e2 * b.e1 + a.e3 * b.e123 + a.e12 * b.e + a.e31 * b.e23
            - a.e23 * b.e31 + a.e123 * b.e3,
        e31: a.e * b.e31 - a.e1 * b.e3 + a.e2 * b.e123 + a.e3 * b.e1 - a.e12 * b.e23 + a.e31 * b.e
            + a.e23 * b.e12 + a.e123 * b.e2,
        e23: a.e * b.e23 + a.e1 * b.e123 + a.e2 * b.e3 - a.e3 * b.e2 + a.e12 * b.e31 - a.e31
            * b.e12 + a.e23 * b.e + a.e123 * b.e1,
        e123: a.e * b.e123 + a.e1 * b.e23 + a.e2 * b.e31 + a.e3 * b.e12 + a.e12 * b.e3 + a.e31
            * b.e2 + a.e23 * b.e1 + a.e123 * b.e,
    }
}

/// The symmetric part of the geometric product.
pub open spec fn number_dot(a: Number<int>, b: Number<int>) -> Number<int> {
    Number {
        e: a.e * b.e + a.e1 * b.e1 + a.e2 * b.e2 + a.e3 * b.e3 - a.e12 * b.e12 - a.e31 * b.e31
            - a.e23 * b.e23 - a.e123 * b.e123,
        e1: a.e * b.e1 + a.e1 * b.e - a.e23 * b.e123 - a.e123 * b.e23,
        e2: a.e * b.e2 + a.e2 * b.e - a.e31 * b.e123 - a.e123 * b.e31,
        e3: a.e * b.e3 + a.e3 * b.e - a.e12 * b.e123 - a.e123 * b.e12,
        e12: a.e * b.e12 + a.e3 * b.e123 + a.e12 * b.e + a.e123 * b.e3,
        e31: a.e * b.e31 + a.e2 * b.e123 + a.e31 * b.e + a.e123 * b.e2,
        e23: a.e * b.e23 + a.e1 * b.e123 + a.e23 * b.e + a.e123 * b.e1,
        e123: a.e * b.e123 + a.e1 * b.e23 + a.e2 * b.e31 + a.e3 * b.e12 + a.e12 * b.e3 + a.e31
            * b.e2 + a.e23 * b.e1 + a.e123 * b.e,
    }
}

/// The antisymmetric part of the geometric product.
pub open spec fn number_cross(a: Number<int>, b: Number<int>) -> Number<int> {
    Number {
        e: 0,
        e1: 0 - a.e2 * b.e12 + a.e3 * b.e31 + a.e12 * b.e2 - a.e31 * b.e3,
        e2: 0 + a.e1 * b.e12 - a.e3 * b.e23 - a.e12 * b.e1 + a.e23 * b.e3,
        e3: 0 - a.e1 * b.e31 + a.e2 * b.e23 + a.e31 * b.e1 - a.e23 * b.e2,
        e12: 0 + a.e1 * b.e2 - a.e2 * b.e1 + a.e31 * b.e23 - a.e23 * b.e31,
        e31: 0 - a.e1 * b.e3 + a.e3 * b.e1 - a.e12 * b.e23 + a.e23 * b.e12,
        e23: 0 + a.e2 * b.e3 - a.e3 * b.e2 + a.e12 * b.e31 - a.e31 * b.e12,
        e123: 0,
    }
}

impl Number<i32> {
    pub fn zero() -> (r: Self)
        ensures
            r@ == number_zero(),
    {
        Number { e: 0, e1: 0, e2: 0, e3: 0, e12: 0, e31: 0, e23: 0, e123: 0 }
    }

    /// The scalar unit.
    pub fn e() -> (r: Self)
        ensures
            r@ == (Number { e: 1, ..number_zero() }),
    {
        Number { e: 1, ..Self::zero() }
    }

    pub fn e1() -> (r: Self)
        ensures
            r@ == (Number { e1: 1, ..number_zero() }),
    {
        Number { e1: 1, ..Self::zero() }
    }

    pub fn e2() -> (r: Self)
        ensures
            r@ == (Number { e2: 1, ..number_zero() }),
    {
        Number { e2: 1, ..Self::zero() }
    }

    pub fn e3() -> (r: Self)
        ensures
            r@ == (Number { e3: 1, ..number_zero() }),
    {
        Number { e3: 1, ..Self::zero() }
    }

    pub fn e12() -> (r: Self)
        ensures
            r@ == (Number { e12: 1, ..number_zero() }),
    {
        Number { e12: 1, ..Self::zero() }
    }

    pub fn e31() -> (r: Self)
        ensures
            r@ == (Number { e31: 1, ..number_zero() }),
    {
        Number { e31: 1, ..Self::zero() }
    }

    pub fn e23() -> (r: Self)
        ensures
            r@ == (Number { e23: 1, ..number_zero() }),
    {
        Number { e23: 1, ..Self::zero() }
    }

    /// The unit pseudoscalar.
    pub fn e123() -> (r: Self)
        ensures
            r@ == (Number { e123: 1, ..number_zero() }),
    {
        Number { e123: 1, ..Self::zero() }
    }

    /// The symmetric part of the geometric product, `(ab + ba) / 2`.
    pub fn dot(&self, rhs: Self) -> (r: Self)
        requires
            number_fits(number_dot(self@, rhs@)),
        ensures
            r@ == number_dot(self@, rhs@),
    {
        let a = self;
        let b = rhs;
        Self {
            e: narrow(
                mul_i32(a.e, b.e) + mul_i32(a.e1, b.e1) + mul_i32(a.e2, b.e2) + mul_i32(a.e3, b.e3)
                    - mul_i32(a.e12, b.e12) - mul_i32(a.e31, b.e31) - mul_i32(a.e23, b.e23)
                    - mul_i32(a.e123, b.e123),
            ),
            e1: narrow(
                mul_i32(a.e, b.e1) + mul_i32(a.e1, b.e) - mul_i32(a.e23, b.e123) - mul_i32(
                    a.e123,
                    b.e23,
                ),
            ),
            e2: narrow(
                mul_i32(a.e, b.e2) + mul_i32(a.e2, b.e) - mul_i32(a.e31, b.e123) - mul_i32(
                    a.e123,
                    b.e31,
                ),
            ),
            e3: narrow(
                mul_i32(a.e, b.e3) + mul_i32(a.e3, b.e) - mul_i32(a.e12, b.e123) - mul_i32(
                    a.e123,
                    b.e12,
                ),
            ),
            e12: narrow(
                mul_i32(a.e, b.e12) + mul_i32(a.e3, b.e123) + mul_i32(a.e12, b.e) + mul_i32(
                    a.e123,
                    b.e3,
                ),
            ),
            e31: narrow(
                mul_i32(a.e, b.e31) + mul_i32(a.e2, b.e123) + mul_i32(a.e31, b.e) + mul_i32(
                    a.e123,
                    b.e2,
                ),
            ),
            e23: narrow(
                mul_i32(a.e, b.e23) + mul_i32(a.e1, b.e123) + mul_i32(a.e23, b.e) + mul_i32(
                    a.e123,
                    b.e1,
                ),
            ),
            e123: narrow(
                mul_i32(a.e, b.e123) + mul_i32(a.e1, b.e23) + mul_i32(a.e2, b.e31) + mul_i32(
                    a.e3,
                    b.e12,
                ) + mul_i32(a.e12, b.e3) + mul_i32(a.e31, b.e2) + mul_i32(a.e23, b.e1) + mul_i32(
                    a.e123,
                    b.e,
                ),
            ),
        }
    }

    /// The antisymmetric part of the geometric product, `(ab - ba) / 2`.
    pub fn cross(&self, rhs: Self) -> (r: Self)
        requires
            number_fits(number_cross(self@, rhs@)),
        ensures
            r@ == number_cross(self@, rhs@),
    {
        let a = self;
        let b = rhs;
        Self {
            e: 0,
            e1: narrow(
                0 - mul_i32(a.e2, b.e12) + mul_i32(a.e3, b.e31) + mul_i32(a.e12, b.e2) - mul_i32(
                    a.e31,
                    b.e3,
                ),
            ),
            e2: narrow(
                mul_i32(a.e1, b.e12) - mul_i32(a.e3, b.e23) - mul_i32(a.e12, b.e1) + mul_i32(
                    a.e23,
                    b.e3,
                ),
            ),
            e3: narrow(
                0 - mul_i32(a.e1, b.e31) + mul_i32(a.e2, b.e23) + mul_i32(a.e31, b.e1) - mul_i32(
                    a.e23,
                    b.e2,
                ),
            ),
            e12: narrow(
                mul_i32(a.e1, b.e2) - mul_i32(a.e2, b.e1) + mul_i32(a.e31, b.e23) - mul_i32(
                    a.e23,
                    b.e31,
                ),
            ),
            e31: narrow(
                0 - mul_i32(a.e1, b.e3) + mul_i32(a.e3, b.e1) - mul_i32(a.e12, b.e23) + mul_i32(
                    a.e23,
                    b.e12,
                ),
            ),
            e23: narrow(
                mul_i32(a.e2, b.e3) - mul_i32(a.e3, b.e2) + mul_i32(a.e12, b.e31) - mul_i32(
                    a.e31,
                    b.e12,
                ),
            ),
            e123: 0,
        }
    }

    pub fn scalar_product(self, rhs: i32) -> (r: Self)
        requires
            number_fits(number_scale(self@, rhs as int)),
        ensures
            r@ == number_scale(self@, rhs as int),
    {
        Self {
            e: narrow(mul_i32(self.e, rhs)),
            e1: narrow(mul_i32(self.e1, rhs)),
            e2: narrow(mul_i32(self.e2, rhs)),
            e3: narrow(mul_i32(self.e3, rhs)),
            e12: narrow(mul_i32(self.e12, rhs)),
            e31: narrow(mul_i32(self.e31, rhs)),
            e23: narrow(mul_i32(self.e23, rhs)),
            e123: narrow(mul_i32(self.e123, rhs)),
        }
    }

    pub fn scalar_divide(self, rhs: i32) -> (r: Self)
        requires
            number_div_ok(self@, rhs as int),
        ensures
            r@ == number_div(self@, rhs as int),
    {
        Self {
            e: div_i32(self.e, rhs),
            e1: div_i32(self.e1, rhs),
            e2: div_i32(self.e2, rhs),
            e3: div_i32(self.e3, rhs),
            e12: div_i32(self.e12, rhs),
            e31: div_i32(self.e31, rhs),
            e23: div_i32(self.e23, rhs),
            e123: div_i32(self.e123, rhs),
        }
    }
}

impl core::default::Default for Number<i32> {
    /// The zero number.
    fn default() -> (r: Self)
        ensures
            r@ == number_zero(),
    {
        Self::zero()
    }
}

impl core::ops::Mul for Number<i32> {
    type Output = Self;

    /// The geometric product.
    fn mul(self, rhs: Self) -> (r: Self)
        ensures
            r@ == number_mul(self@, rhs@),
    {
        let a = self;
        let b = rhs;
        Self {
            e: narrow(
                mul_i32(a.e, b.e) + mul_i32(a.e1, b.e1) + mul_i32(a.e2, b.e2) + mul_i32(a.e3, b.e3)
                    - mul_i32(a.e12, b.e12) - mul_i32(a.e31, b.e31) - mul_i32(a.e23, b.e23)
                    - mul_i32(a.e123, b.e123),
            ),
            e1: narrow(
                mul_i32(a.e, b.e1) + mul_i32(a.e1, b.e) - mul_i32(a.e2, b.e12) + mul_i32(a.e3, b.e31)
                    + mul_i32(a.e12, b.e2) - mul_i32(a.e31, b.e3) - mul_i32(a.e23, b.e123)
                    - mul_i32(a.e123, b.e23),
            ),
            e2: narrow(
                mul_i32(a.e, b.e2) + mul_i32(a.e1, b.e12) + mul_i32(a.e2, b.e) - mul_i32(a.e3, b.e23)
                    - mul_i32(a.e12, b.e1) - mul_i32(a.e31, b.e123) + mul_i32(a.e23, b.e3)
                    - mul_i32(a.e123, b.e31),
            ),
            e3: narrow(
                mul_i32(a.e, b.e3) - mul_i32(a.e1, b.e31) + mul_i32(a.e2, b.e23) + mul_i32(a.e3, b.e)
                    - mul_i32(a.e12, b.e123) + mul_i32(a.e31, b.e1) - mul_i32(a.e23, b.e2)
                    - mul_i32(a.e123, b.e12),
            ),
            e12: narrow(
                mul_i32(a.e, b.e12) + mul_i32(a.e1, b.e2) - mul_i32(a.e2, b.e1) + mul_i32(
                    a.e3,
                    b.e123,
                ) + mul_i32(a.e12, b.e) + mul_i32(a.e31, b.e23) - mul_i32(a.e23, b.e31) + mul_i32(
                    a.e123,
                    b.e3,
                ),
            ),
            e31: narrow(
                mul_i32(a.e, b.e31) - mul_i32(a.e1, b.e3) + mul_i32(a.e2, b.e123) + mul_i32(
                    a.e3,
                    b.e1,
                ) - mul_i32(a.e12, b.e23) + mul_i32(a.e31, b.e) + mul_i32(a.e23, b.e12) + mul_i32(
                    a.e123,
                    b.e2,
                ),
            ),
            e23: narrow(
                mul_i32(a.e, b.e23) + mul_i32(a.e1, b.e123) + mul_i32(a.e2, b.e3) - mul_i32(
                    a.e3,
                    b.e2,
                ) + mul_i32(a.e12, b.e31) - mul_i32(a.e31, b.e12) + mul_i32(a.e23, b.e) + mul_i32(
                    a.e123,
                    b.e1,
                ),
            ),
            e123: narrow(
                mul_i32(a.e, b.e123) + mul_i32(a.e1, b.e23) + mul_i32(a.e2, b.e31) + mul_i32(
                    a.e3,
                    b.e12,
                ) + mul_i32(a.e12, b.e3) + mul_i32(a.e31, b.e2) + mul_i32(a.e23, b.e1) + mul_i32(
                    a.e123,
                    b.e,
                ),
            ),
        }
    }
}

impl vstd::std_specs::ops::MulSpecImpl for Number<i32> {
    open spec fn obeys_mul_spec() -> bool {
        true
    }

    open spec fn mul_req(self, rhs: Self) -> bool {
        number_fits(number_mul(self@, rhs@))
    }

    open spec fn mul_spec(self, rhs: Self) -> Self {
        number_narrow(number_mul(self@, rhs@))
    }
}

impl core::ops::Add for Number<i32> {
    type Output = Self;

    fn add(self, rhs: Self) -> (r: Self)
        ensures
            r@ == number_add(self@, rhs@),
    {
        Self {
            e: self.e + rhs.e,
            e1: self.e1 + rhs.e1,
            e2: self.e2 + rhs.e2,
            e3: self.e3 + rhs.e3,
            e12: self.e12 + rhs.e12,
            e31: self.e31 + rhs.e31,
            e23: self.e23 + rhs.e23,
            e123: self.e123 + rhs.e123,
        }
    }
}

impl vstd::std_specs::ops::AddSpecImpl for Number<i32> {
    open spec fn obeys_add_spec() -> bool {
        true
    }

    open spec fn add_req(self, rhs: Self) -> bool {
        number_fits(number_add(self@, rhs@))
    }

    open spec fn add_spec(self, rhs: Self) -> Self {
        number_narrow(number_add(self@, rhs@))
    }
}

impl core::ops::Sub for Number<i32> {
    type Output = Self;

    fn sub(self, rhs: Self) -> (r: Self)
        ensures
            r@ == number_sub(self@, rhs@),
    {
        Self {
            e: self.e - rhs.e,
            e1: self.e1 - rhs.e1,
            e2: self.e2 - rhs.e2,
            e3: self.e3 - rhs.e3,
            e12: self.e12 - rhs.e12,
            e31: self.e31 - rhs.e31,
            e23: self.e23 - rhs.e23,
            e123: self.e123 - rhs.e123,
        }
    }
}

impl vstd::std_specs::ops::SubSpecImpl for Number<i32> {
    open spec fn obeys_sub_spec() -> bool {
        true
    }

    open spec fn sub_req(self, rhs: Self) -> bool {
        number_fits(number_sub(self@, rhs@))
    }

    open spec fn sub_spec(self, rhs: Self) -> Self {
        number_narrow(number_sub(self@, rhs@))
    }
}

impl core::convert::From<Vector<i32>> for Number<i32> {
    /// A vector as a general number.
    fn from(v: Vector<i32>) -> (r: Self)
        ensures
            r@ == number_from_vector(v@),
    {
        Number { e: 0, e1: v.e1, e2: v.e2, e3: v.e3, e12: 0, e31: 0, e23: 0, e123: 0 }
    }
}

impl vstd::std_specs::convert::FromSpecImpl<Vector<i32>> for Number<i32> {
    open spec fn obeys_from_spec() -> bool {
        true
    }

    open spec fn from_spec(v: Vector<i32>) -> Self {
        Number { e: 0, e1: v.e1, e2: v.e2, e3: v.e3, e12: 0, e31: 0, e23: 0, e123: 0 }
    }
}

impl core::convert::From<BiVector<i32>> for Number<i32> {
    /// A bivector as a general number.
    fn from(bv: BiVector<i32>) -> (r: Self)
        ensures
            r@ == number_from_bivector(bv@),
    {
        Number { e: 0, e1: 0, e2: 0, e3: 0, e12: bv.e12, e31: bv.e31, e23: bv.e23, e123: 0 }
    }
}

impl vstd::std_specs::convert::FromSpecImpl<BiVector<i32>> for Number<i32> {
    open spec fn obeys_from_spec() -> bool {
        true
    }

    open spec fn from_spec(bv: BiVector<i32>) -> Self {
        Number { e: 0, e1: 0, e2: 0, e3: 0, e12: bv.e12, e31: bv.e31, e23: bv.e23, e123: 0 }
    }
}

impl core::convert::From<Rotor<i32>> for Number<i32> {
    /// A rotor as a general number.
    fn from(r: Rotor<i32>) -> (n: Self)
        ensures
            n@ == number_from_rotor(r@),
    {
        Number { e: r.e, e1: 0, e2: 0, e3: 0, e12: r.e12, e31: r.e31, e23: r.e23, e123: 0 }
    }
}

impl vstd::std_specs::convert::FromSpecImpl<Rotor<i32>> for Number<i32> {
    open spec fn obeys_from_spec() -> bool {
        true
    }

    open spec fn from_spec(r: Rotor<i32>) -> Self {
        Number { e: r.e, e1: 0, e2: 0, e3: 0, e12: r.e12, e31: r.e31, e23: r.e23, e123: 0 }
    }
}

} // verus!
