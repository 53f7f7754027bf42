use vstd::prelude::*;

use crate::arith::{fits_i32, mul_i32, narrow};

verus! {

/// A bivector `e12 e1e2 + e31 e3e1 + e23 e2e3`: an oriented plane.
#[derive(Copy, Clone, Debug, PartialEq, Eq)]
pub struct BiVector<T> {
    pub e12: T,
    pub e31: T,
    pub e23: T,
}

impl View for BiVector<i32> {
    type V = BiVector<int>;

    open spec fn view(&self) -> BiVector<int> {
        BiVector { e12: self.e12 as int, e31: self.e31 as int, e23: self.e23 as int }
    }
}

/// Every component of the bivector fits in an `i32`.
pub open spec fn bivector_fits(b: BiVector<int>) -> bool {
    fits_i32(b.e12) && fits_i32(b.e31) && fits_i32(b.e23)
}

/// The scalar (inner) product of two bivectors; each unit bivector squares to -1.
pub open spec fn bivector_dot(a: BiVector<int>, b: BiVector<int>) -> int {
    -(a.e12 * b.e12) - a.e31 * b.e31 - a.e23 * b.e23
}

/// The commutator product of two bivectors.
pub open spec fn bivector_cross(a: BiVector<int>, b: BiVector<int>) -> BiVector<int> {
    BiVector {
        e12: a.e31 * b.e23 - a.e23 * b.e31,
        e31: a.e23 * b.e12 - a.e12 * b.e23,
        e23: a.e12 * b.e31 - a.e31 * b.e12,
    }
}

impl BiVector<i32> {
    /// The inner product of two bivectors.
    pub fn dot(&self, rhs: Self) -> (r: i32)
        requires
            fits_i32(bivector_dot(self@, rhs@)),
        ensures
            r == bivector_dot(self@, rhs@),
    {
        let a = self;
        let b = rhs;
        narrow(0 - mul_i32(a.e12, b.e12) - mul_i32(a.e31, b.e31) - mul_i32(a.e23, b.e23))
    }

    /// The commutator product of two bivectors.
    pub fn cross(&self, rhs: Self) -> (r: Self)
        requires
            bivector_fits(bivector_cross(self@, rhs@)),
        ensures
            r@ == bivector_cross(self@, rhs@),
    {
        let a = self;
        let b = rhs;
        BiVector {
            e12: narrow(mul_i32(a.e31, b.e23) - mul_i32(a.e23, b.e31)),
            e31: narrow(mul_i32(a.e23, b.e12) - mul_i32(a.e12, b.e23)),
            e23: narrow(mul_i32(a.e12, b.e31) - mul_i32(a.e31, b.e12)),
        }
    }
}

} // verus!
