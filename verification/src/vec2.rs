use vstd::prelude::*;

use crate::arith::{div_i32, div_ok, div_trunc, fits_i32, mul_i32, narrow};

verus! {

/// A 2D vector `e1 e1 + e2 e2`.
#[derive(Copy, Clone, Debug, PartialEq, Eq)]
pub struct Vec2<T> {
    pub e1: T,
    pub e2: T,
}

/// A general element of the 2D geometric algebra: scalar, vector and bivector parts.
#[derive(Copy, Clone, Debug, PartialEq, Eq)]
pub struct Number2<T> {
    pub e: T,
    pub e1: T,
    pub e2: T,
    pub e12: T,
}

impl View for Vec2<i32> {
    type V = Vec2<int>;

    open spec fn view(&self) -> Vec2<int> {
        Vec2 { e1: self.e1 as int, e2: self.e2 as int }
    }
}

impl View for Number2<i32> {
    type V = Number2<int>;

    open spec fn view(&self) -> Number2<int> {
        Number2 { e: self.e as int, e1: self.e1 as int, e2: self.e2 as int, e12: self.e12 as int }
    }
}

pub open spec fn vec2_fits(v: Vec2<int>) -> bool {
    fits_i32(v.e1) && fits_i32(v.e2)
}

pub open spec fn number2_fits(n: Number2<int>) -> bool {
    fits_i32(n.e) && fits_i32(n.e1) && fits_i32(n.e2) && fits_i32(n.e12)
}

pub open spec fn vec2_add(a: Vec2<int>, b: Vec2<int>) -> Vec2<int> {
    Vec2 { e1: a.e1 + b.e1, e2: a.e2 + b.e2 }
}

pub open spec fn vec2_sub(a: Vec2<int>, b: Vec2<int>) -> Vec2<int> {
    Vec2 { e1: a.e1 - b.e1, e2: a.e2 - b.e2 }
}

pub open spec fn vec2_scale(a: Vec2<int>, k: int) -> Vec2<int> {
    Vec2 { e1: a.e1 * k, e2: a.e2 * k }
}

pub open spec fn vec2_div(a: Vec2<int>, k: int) -> Vec2<int> {
    Vec2 { e1: div_trunc(a.e1, k), e2: div_trunc(a.e2, k) }
}

/// The geometric product of two 2D vectors: scalar part `a . b`, bivector part `a ^ b`.
pub open spec fn vec2_mul(a: Vec2<int>, b: Vec2<int>) -> Number2<int> {
    Number2 { e: a.e1 * b.e1 + a.e2 * b.e2, e1: 0, e2: 0, e12: a.e1 * b.e2 - a.e2 * b.e1 }
}

pub open spec fn number2_zero() -> Number2<int> {
    Number2 { e: 0, e1: 0, e2: 0, e12: 0 }
}

pub open spec fn number2_add(a: Number2<int>, b: Number2<int>) -> Number2<int> {
    Number2 { e: a.e + b.e, e1: a.e1 + b.e1, e2: a.e2 + b.e2, e12: a.e12 + b.e12 }
}

pub open spec fn number2_sub(a: Number2<int>, b: Number2<int>) -> Number2<int> {
    Number2 { e: a.e - b.e, e1: a.e1 - b.e1, e2: a.e2 - b.e2, e12: a.e12 - b.e12 }
}

pub open spec fn number2_scale(a: Number2<int>, k: int) -> Number2<int> {
    Number2 { e: a.e * k, e1: a.e1 * k, e2: a.e2 * k, e12: a.e12 * k }
}

pub open spec fn number2_div(a: Number2<int>, k: int) -> Number2<int> {
    Number2 {
        e: div_trunc(a.e, k),
        e1: div_trunc(a.e1, k),
        e2: div_trunc(a.e2, k),
        e12: div_trunc(a.e12, k),
    }
}

/// The geometric product in two dimensions, with `e1^2 = e2^2 = 1`.
pub open spec fn number2_mul(a: Number2<int>, b: Number2<int>) -> Number2<int> {
    Number2 {
        e: a.e * b.e + a.e1 * b.e1 + a.e2 * b.e2 - a.e12 * b.e12,
        e1: a.e * b.e1 + a.e1 * b.e - a.e2 * b.e12 + a.e12 * b.e2,
        e2: a.e * b.e2 + a.e1 * b.e12 + a.e2 * b.e - a.e12 * b.e1,
        e12: a.e * b.e12 + a.e1 * b.e2 - a.e2 * b.e1 + a.e12 * b.e,
    }
}

impl<T> Vec2<T> {
    pub fn new(e1: T, e2: T) -> (r: Self)
        ensures
            r == (Vec2 { e1, e2 }),
    {
        Self { e1, e2 }
    }
}

impl Vec2<i32> {
    pub fn zero() -> (r: Self)
        ensures
            r@ == (Vec2::<int> { e1: 0, e2: 0 }),
    {
        Vec2 { e1: 0, e2: 0 }
    }

    /// The unit vector along `e1`.
    pub fn x_hat() -> (r: Self)
        ensures
            r@ == (Vec2::<int> { e1: 1, e2: 0 }),
    {
        Vec2 { e1: 1, e2: 0 }
    }

    /// The unit vector along `e2`.
    pub fn y_hat() -> (r: Self)
        ensures
            r@ == (Vec2::<int> { e1: 0, e2: 1 }),
    {
        Vec2 { e1: 0, e2: 1 }
    }

    pub fn scalar_product(self, rhs: i32) -> (r: Self)
        requires
            vec2_fits(vec2_scale(self@, rhs as int)),
        ensures
            r@ == vec2_scale(self@, rhs as int),
    {
        Self { e1: narrow(mul_i32(self.e1, rhs)), e2: narrow(mul_i32(self.e2, rhs)) }
    }

    pub fn scalar_divide(self, rhs: i32) -> (r: Self)
        requires
            div_ok(self.e1 as int, rhs as int),
            div_ok(self.e2 as int, rhs as int),
        ensures
            r@ == vec2_div(self@, rhs as int),
    {
        Self { e1: div_i32(self.e1, rhs), e2: div_i32(self.e2, rhs) }
    }
}

impl core::default::Default for Vec2<i32> {
    /// The zero vector.
    fn default() -> (r: Self)
        ensures
            r@ == (Vec2::<int> { e1: 0, e2: 0 }),
    {
        Self::zero()
    }
}

impl core::ops::Mul for Vec2<i32> {
    type Output = Number2<i32>;

    /// The geometric product of two 2D vectors.
    fn mul(self, rhs: Self) -> (r: Number2<i32>)
        ensures
            r@ == vec2_mul(self@, rhs@),
    {
        let a = self;
        let b = rhs;
        Number2 {
            e: narrow(mul_i32(a.e1, b.e1) + mul_i32(a.e2, b.e2)),
            e1: 0,
            e2: 0,
            e12: narrow(mul_i32(a.e1, b.e2) - mul_i32(a.e2, b.e1)),
        }
    }
}

impl vstd::std_specs::ops::MulSpecImpl for Vec2<i32> {
    open spec fn obeys_mul_spec() -> bool {
        true
    }

    open spec fn mul_req(self, rhs: Self) -> bool {
        number2_fits(vec2_mul(self@, rhs@))
    }

    open spec fn mul_spec(self, rhs: Self) -> Number2<i32> {
        let n = vec2_mul(self@, rhs@);
        Number2 { e: n.e as i32, e1: 0, e2: 0, e12: n.e12 as i32 }
    }
}

impl core::ops::Add for Vec2<i32> {
    type Output = Self;

    fn add(self, rhs: Self) -> (r: Self)
        ensures
            r@ == vec2_add(self@, rhs@),
    {
        Self { e1: self.e1 + rhs.e1, e2: self.e2 + rhs.e2 }
    }
}

impl vstd::std_specs::ops::AddSpecImpl for Vec2<i32> {
    open spec fn obeys_add_spec() -> bool {
        true
    }

    open spec fn add_req(self, rhs: Self) -> bool {
        vec2_fits(vec2_add(self@, rhs@))
    }

    open spec fn add_spec(self, rhs: Self) -> Self {
        Vec2 { e1: (self.e1 + rhs.e1) as i32, e2: (self.e2 + rhs.e2) as i32 }
    }
}

impl core::ops::Sub for Vec2<i32> {
    type Output = Self;

    fn sub(self, rhs: Self) -> (r: Self)
        ensures
            r@ == vec2_sub(self@, rhs@),
    {
        Self { e1: self.e1 - rhs.e1, e2: self.e2 - rhs.e2 }
    }
}

impl vstd::std_specs::ops::SubSpecImpl for Vec2<i32> {
    open spec fn obeys_sub_spec() -> bool {
        true
    }

    open spec fn sub_req(self, rhs: Self) -> bool {
        vec2_fits(vec2_sub(self@, rhs@))
    }

    open spec fn sub_spec(self, rhs: Self) -> Self {
        Vec2 { e1: (self.e1 - rhs.e1) as i32, e2: (self.e2 - rhs.e2) as i32 }
    }
}

impl Vec2<i32> {
    /// Adds `rhs` in place.
    pub fn add_assign(&mut self, rhs: Self)
        requires
            vec2_fits(vec2_add(old(self)@, rhs@)),
        ensures
            final(self)@ == vec2_add(old(self)@, rhs@),
    {
        self.e1 += rhs.e1;
        self.e2 += rhs.e2;
    }

    /// Subtracts `rhs` in place.
    pub fn sub_assign(&mut self, rhs: Self)
        requires
            vec2_fits(vec2_sub(old(self)@, rhs@)),
        ensures
            final(self)@ == vec2_sub(old(self)@, rhs@),
    {
        self.e1 -= rhs.e1;
        self.e2 -= rhs.e2;
    }
}

impl Number2<i32> {
    pub fn zero() -> (r: Self)
        ensures
            r@ == number2_zero(),
    {
        Number2 { e: 0, e1: 0, e2: 0, e12: 0 }
    }

    /// The scalar unit.
    pub fn e() -> (r: Self)
        ensures
            r@ == (Number2 { e: 1, ..number2_zero() }),
    {
        Number2 { e: 1, e1: 0, e2: 0, e12: 0 }
    }

    pub fn e1() -> (r: Self)
        ensures
            r@ == (Number2 { e1: 1, ..number2_zero() }),
    {
        Number2 { e: 0, e1: 1, e2: 0, e12: 0 }
    }

    pub fn e2() -> (r: Self)
        ensures
            r@ == (Number2 { e2: 1, ..number2_zero() }),
    {
        Number2 { e: 0, e1: 0, e2: 1, e12: 0 }
    }

    /// The unit bivector, which squares to -1.
    pub fn e12() -> (r: Self)
        ensures
            r@ == (Number2 { e12: 1, ..number2_zero() }),
    {
        Number2 { e: 0, e1: 0, e2: 0, e12: 1 }
    }

    pub fn scalar_product(self, rhs: i32) -> (r: Self)
        requires
            number2_fits(number2_scale(self@, rhs as int)),
        ensures
            r@ == number2_scale(self@, rhs as int),
    {
        Self {
            e: narrow(mul_i32(self.e, rhs)),
            e1: narrow(mul_i32(self.e1, rhs)),
            e2: narrow(mul_i32(self.e2, rhs)),
            e12: narrow(mul_i32(self.e12, rhs)),
        }
    }

    pub fn scalar_divide(self, rhs: i32) -> (r: Self)
        requires
            div_ok(self.e as int, rhs as int),
            div_ok(self.e1 as int, rhs as int),
            div_ok(self.e2 as int, rhs as int),
            div_ok(self.e12 as int, rhs as int),
        ensures
            r@ == number2_div(self@, rhs as int),
    {
        Self {
            e: div_i32(self.e, rhs),
            e1: div_i32(self.e1, rhs),
            e2: div_i32(self.e2, rhs),
            e12: div_i32(self.e12, rhs),
        }
    }
}

impl core::default::Default for Number2<i32> {
    /// The zero number.
    fn default() -> (r: Self)
        ensures
            r@ == number2_zero(),
    {
        Self::zero()
    }
}

impl core::ops::Mul for Number2<i32> {
    type Output = Self;

    /// The geometric product in two dimensions.
    fn mul(self, rhs: Self) -> (r: Self)
        ensures
            r@ == number2_mul(self@, rhs@),
    {
        let a = self;
        let b = rhs;
        Self {
            e: narrow(
                mul_i32(a.e, b.e) + mul_i32(a.e1, b.e1) + mul_i32(a.e2, b.e2) - mul_i32(a.e12, b.e12),
            ),
            e1: narrow(
                mul_i32(a.e, b.e1) + mul_i32(a.e1, b.e) - mul_i32(a.e2, b.e12) + mul_i32(a.e12, b.e2),
            ),
            e2: narrow(
                mul_i32(a.e, b.e2) + mul_i32(a.e1, b.e12) + mul_i32(a.e2, b.e) - mul_i32(a.e12, b.e1),
            ),
            e12: narrow(
                mul_i32(a.e, b.e12) + mul_i32(a.e1, b.e2) - mul_i32(a.e2, b.e1) + mul_i32(a.e12, b.e),
            ),
        }
    }
}

impl vstd::std_specs::ops::MulSpecImpl for Number2<i32> {
    open spec fn obeys_mul_spec() -> bool {
        true
    }

    open spec fn mul_req(self, rhs: Self) -> bool {
        number2_fits(number2_mul(self@, rhs@))
    }

    open spec fn mul_spec(self, rhs: Self) -> Self {
        let n = number2_mul(self@, rhs@);
        Number2 { e: n.e as i32, e1: n.e1 as i32, e2: n.e2 as i32, e12: n.e12 as i32 }
    }
}

impl core::ops::Add for Number2<i32> {
    type Output = Self;

    fn add(self, rhs: Self) -> (r: Self)
        ensures
            r@ == number2_add(self@, rhs@),
    {
        Self { e: self.e + rhs.e, e1: self.e1 + rhs.e1, e2: self.e2 + rhs.e2, e12: self.e12 + rhs.e12 }
    }
}

impl vstd::std_specs::ops::AddSpecImpl for Number2<i32> {
    open spec fn obeys_add_spec() -> bool {
        true
    }

    open spec fn add_req(self, rhs: Self) -> bool {
        number2_fits(number2_add(self@, rhs@))
    }

    open spec fn add_spec(self, rhs: Self) -> Self {
        let n = number2_add(self@, rhs@);
        Number2 { e: n.e as i32, e1: n.e1 as i32, e2: n.e2 as i32, e12: n.e12 as i32 }
    }
}

impl core::ops::Sub for Number2<i32> {
    type Output = Self;

    fn sub(self, rhs: Self) -> (r: Self)
        ensures
            r@ == number2_sub(self@, rhs@),
    {
        Self { e: self.e - rhs.e, e1: self.e1 - rhs.e1, e2: self.e2 - rhs.e2, e12: self.e12 - rhs.e12 }
    }
}

impl vstd::std_specs::ops::SubSpecImpl for Number2<i32> {
    open spec fn obeys_sub_spec() -> bool {
        true
    }

    open spec fn sub_req(self, rhs: Self) -> bool {
        number2_fits(number2_sub(self@, rhs@))
    }

    open spec fn sub_spec(self, rhs: Self) -> Self {
        let n = number2_sub(self@, rhs@);
        Number2 { e: n.e as i32, e1: n.e1 as i32, e2: n.e2 as i32, e12: n.e12 as i32 }
    }
}

} // verus!
