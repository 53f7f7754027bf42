use vstd::prelude::*;

verus! {

/// Whether an integer fits in an `i32`.
pub open spec fn fits_i32(x: int) -> bool {
    i32::MIN <= x <= i32::MAX
}

/// The magnitude of an integer.
pub open spec fn abs(x: int) -> int {
    if x < 0 {
        -x
    } else {
        x
    }
}

/// Rust's integer division, which rounds towards zero: the quotient of the
/// magnitudes, negated when the signs differ.
pub open spec fn div_trunc(x: int, d: int) -> int {
    if (x < 0) == (d < 0) {
        abs(x) / abs(d)
    } else {
        -(abs(x) / abs(d))
    }
}

/// Whether `x / d` on `i32` values neither divides by zero nor overflows.
pub open spec fn div_ok(x: int, d: int) -> bool {
    d != 0 && !(x == i32::MIN && d == -1)
}

proof fn lemma_product_bound(x: i32, y: i32)
    ensures
        -0x4000_0000_0000_0000 <= x * y <= 0x4000_0000_0000_0000,
{
    assert(-0x4000_0000_0000_0000 <= x * y <= 0x4000_0000_0000_0000) by (nonlinear_arith)
        requires
            i32::MIN <= x <= i32::MAX,
            i32::MIN <= y <= i32::MAX,
    ;
}

proof fn lemma_wide_product_bound(x: int, y: i32)
    requires
        -0x1_0000_0000_0000_0000 <= x <= 0x1_0000_0000_0000_0000,
    ensures
        -0x80_0000_0000_0000_0000_0000_0000 <= x * y <= 0x80_0000_0000_0000_0000_0000_0000,
{
    assert(-0x80_0000_0000_0000_0000_0000_0000 <= x * y <= 0x80_0000_0000_0000_0000_0000_0000)
        by (nonlinear_arith)
        requires
            -0x1_0000_0000_0000_0000 <= x <= 0x1_0000_0000_0000_0000,
            i32::MIN <= y <= i32::MAX,
    ;
}

/// The exact product of two `i32` values.
pub(crate) fn mul_i32(x: i32, y: i32) -> (r: i128)
    ensures
        r == x * y,
        -0x4000_0000_0000_0000 <= r <= 0x4000_0000_0000_0000,
{
    proof {
        lemma_product_bound(x, y);
    }
    (x as i128) * (y as i128)
}

/// The exact product of a value below `2^64` in magnitude and an `i32`.
pub(crate) fn mul_wide(x: i128, y: i32) -> (r: i128)
    requires
        -0x1_0000_0000_0000_0000 <= x <= 0x1_0000_0000_0000_0000,
    ensures
        r == x * y,
        -0x80_0000_0000_0000_0000_0000_0000 <= r <= 0x80_0000_0000_0000_0000_0000_0000,
{
    proof {
        lemma_wide_product_bound(x as int, y);
    }
    x * (y as i128)
}

/// Narrows a value known to fit back to `i32`.
pub(crate) fn narrow(x: i128) -> (r: i32)
    requires
        fits_i32(x as int),
    ensures
        r == x,
{
    x as i32
}

/// `x / d` with Rust's rounding towards zero.
pub(crate) fn div_i32(x: i32, d: i32) -> (r: i32)
    requires
        div_ok(x as int, d as int),
    ensures
        r == div_trunc(x as int, d as int),
{
    let ax: i64 = if x < 0 {
        -(x as i64)
    } else {
        x as i64
    };
    let ad: i64 = if d < 0 {
        -(d as i64)
    } else {
        d as i64
    };
    let q: i64 = ax / ad;
    proof {
        assert(0 <= q <= ax && (ad >= 2 ==> 2 * q <= ax)) by (nonlinear_arith)
            requires
                q == ax / ad,
                ax >= 0,
                ad >= 1,
        ;
        assert(ax == abs(x as int) && ad == abs(d as int));
    }
    if (x < 0) == (d < 0) {
        q as i32
    } else {
        (-q) as i32
    }
}

} // verus!
