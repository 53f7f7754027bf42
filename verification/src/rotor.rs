use vstd::prelude::*;

use crate::arith::{fits_i32, mul_i32, narrow};

verus! {

/// A rotor `e + e12 e1e2 + e31 e3e1 + e23 e2e3`: the even part of the
/// algebra, which encodes rotations.
#[derive(Copy, Clone, Debug, PartialEq, Eq)]
pub struct Rotor<T> {
    pub e: T,
    pub e12: T,
    pub e31: T,
    pub e23: T,
}

impl View for Rotor<i32> {
    type V = Rotor<int>;

    open spec fn view(&self) -> Rotor<int> {
        Rotor { e: self.e as int, e12: self.e12 as int, e31: self.e31 as int, e23: self.e23 as int }
    }
}

/// Every component of the rotor fits in an `i32`.
pub open spec fn rotor_fits(r: Rotor<int>) -> bool {
    fits_i32(r.e) && fits_i32(r.e12) && fits_i32(r.e31) && fits_i32(r.e23)
}

/// The reverse of a rotor: the bivector part changes sign.
pub open spec fn rotor_conjugate(r: Rotor<int>) -> Rotor<int> {
    Rotor { e: r.e, e12: -r.e12, e31: -r.e31, e23: -r.e23 }
}

/// The geometric product of two rotors.
pub open spec fn rotor_mul(a: Rotor<int>, b: Rotor<int>) -> Rotor<int> {
    Rotor {
        e: a.e * b.e - a.e12 * b.e12 - a.e31 * b.e31 - a.e23 * b.e23,
        e12: a.e * b.e12 + a.e12 * b.e + a.e31 * b.e23 - a.e23 * b.e31,
        e31: a.e * b.e31 - a.e12 * b.e23 + a.e31 * b.e + a.e23 * b.e12,
        e23: a.e * b.e23 + a.e12 * b.e31 - a.e31 * b.e12 + a.e23 * b.e,
    }
}

/// The squared magnitude of a rotor.
pub open spec fn rotor_norm_squared(r: Rotor<int>) -> int {
    r.e * r.e + r.e12 * r.e12 + r.e31 * r.e31 + r.e23 * r.e23
}

impl Rotor<i32> {
    /// The reverse of the rotor, which undoes its rotation when the rotor has unit norm.
    pub fn conjugate(self) -> (r: Rotor<i32>)
        requires
            rotor_fits(rotor_conjugate(self@)),
        ensures
            r@ == rotor_conjugate(self@),
    {
        Rotor { e: self.e, e12: -self.e12, e31: -self.e31, e23: -self.e23 }
    }
}

impl core::ops::Mul for Rotor<i32> {
    type Output = Rotor<i32>;

    /// Composes two rotors.
    fn mul(self, rhs: Self) -> (r: Rotor<i32>)
        ensures
            r@ == rotor_mul(self@, rhs@),
    {
        let a = self;
        let b = rhs;
        Rotor {
            e: narrow(
                mul_i32(a.e, b.e) - mul_i32(a.e12, b.e12) - mul_i32(a.e31, b.e31) - mul_i32(
                    a.e23,
                    b.e23,
                ),
            ),
            e12: narrow(
                mul_i32(a.e, b.e12) + mul_i32(a.e12, b.e) + mul_i32(a.e31, b.e23) - mul_i32(
                    a.e23,
                    b.e31,
                ),
            ),
            e31: narrow(
                mul_i32(a.e, b.e31) - mul_i32(a.e12, b.e23) + mul_i32(a.e31, b.e) + mul_i32(
                    a.e23,
                    b.e12,
                ),
            ),
            e23: narrow(
                mul_i32(a.e, b.e23) + mul_i32(a.e12, b.e31) - mul_i32(a.e31, b.e12) + mul_i32(
                    a.e23,
                    b.e,
                ),
            ),
        }
    }
}

impl vstd::std_specs::ops::MulSpecImpl for Rotor<i32> {
    open spec fn obeys_mul_spec() -> bool {
        true
    }

    open spec fn mul_req(self, rhs: Self) -> bool {
        rotor_fits(rotor_mul(self@, rhs@))
    }

    open spec fn mul_spec(self, rhs: Self) -> Rotor<i32> {
        let r = rotor_mul(self@, rhs@);
        Rotor { e: r.e as i32, e12: r.e12 as i32, e31: r.e31 as i32, e23: r.e23 as i32 }
    }
}

} // verus!
