//! Fixed-point arithmetic with a scale of one million.

use vstd::prelude::*;

verus! {

/// The number of fixed-point units in one whole unit.
pub const SCALE: i64 = 1_000_000;

/// Integer division that rounds toward zero, as Rust's `/` does.
pub open spec fn trunc_div(a: int, d: int) -> int {
    if a >= 0 {
        a / d
    } else {
        -((-a) / d)
    }
}

/// The product of two fixed-point numbers, rounded toward zero.
pub open spec fn fx_product(a: int, b: int) -> int {
    trunc_div(a * b, SCALE as int)
}

/// `v` limited to the closed range `[lo, hi]`.
pub open spec fn clamp_to(v: int, lo: int, hi: int) -> int {
    if v < lo {
        lo
    } else if v > hi {
        hi
    } else {
        v
    }
}

/// `v` limited to the range of `i64`.
pub open spec fn saturate_i64(v: int) -> int {
    clamp_to(v, i64::MIN as int, i64::MAX as int)
}

/// Multiplies two fixed-point numbers, the first of at most 94 bits and the
/// second of at most 32, rounding toward zero.
pub fn fx_mul(a: i128, b: i128) -> (r: i128)
    requires
        -0x4000_0000_0000_0000_0000_0000 <= a <= 0x4000_0000_0000_0000_0000_0000,
        -0x1_0000_0000 <= b <= 0x1_0000_0000,
    ensures
        r == fx_product(a as int, b as int),
        -0x800_0000_0000_0000_0000_0000_0000 <= r <= 0x800_0000_0000_0000_0000_0000_0000,
        -0x8000_0000_0000_0000 <= a <= 0x8000_0000_0000_0000 ==> -0x2000_0000_0000_0000_0000 <= r
            <= 0x2000_0000_0000_0000_0000,
{
    proof {
        lemma_product_bound(a as int, b as int, 0x4000_0000_0000_0000_0000_0000);
        if -0x8000_0000_0000_0000 <= a <= 0x8000_0000_0000_0000 {
            lemma_product_bound(a as int, b as int, 0x8000_0000_0000_0000);
        }
        let p = a * b;
        let q = if p >= 0 { p } else { -p };
        vstd::arithmetic::div_mod::lemma_div_is_ordered(
            q,
            0x4000_0000_0000_0000_0000_0000_0000_0000,
            SCALE as int,
        );
        if q <= 0x80_0000_0000_0000_0000_0000 {
            vstd::arithmetic::div_mod::lemma_div_is_ordered(
                q,
                0x80_0000_0000_0000_0000_0000,
                SCALE as int,
            );
        }
        vstd::arithmetic::div_mod::lemma_div_pos_is_pos(q, SCALE as int);
        assert(0x4000_0000_0000_0000_0000_0000_0000_0000int / 1_000_000
            <= 0x800_0000_0000_0000_0000_0000_0000);
        assert(0x80_0000_0000_0000_0000_0000int / 1_000_000 <= 0x2000_0000_0000_0000_0000);
    }
    let p: i128 = a * b;
    if p >= 0 {
        p / (SCALE as i128)
    } else {
        -((-p) / (SCALE as i128))
    }
}

pub(crate) proof fn lemma_product_bound(a: int, b: int, m: int)
    requires
        -m <= a <= m,
        -0x1_0000_0000 <= b <= 0x1_0000_0000,
    ensures
        -(m * 0x1_0000_0000) <= a * b <= m * 0x1_0000_0000,
{
    if a >= 0 && b >= 0 {
        vstd::arithmetic::mul::lemma_mul_upper_bound(a, m, b, 0x1_0000_0000);
    } else if a < 0 && b < 0 {
        vstd::arithmetic::mul::lemma_mul_upper_bound(-a, m, -b, 0x1_0000_0000);
        assert((-a) * (-b) == a * b) by (nonlinear_arith);
    } else if a >= 0 {
        vstd::arithmetic::mul::lemma_mul_upper_bound(a, m, -b, 0x1_0000_0000);
        assert(a * (-b) == -(a * b)) by (nonlinear_arith);
    } else {
        vstd::arithmetic::mul::lemma_mul_upper_bound(-a, m, b, 0x1_0000_0000);
        assert((-a) * b == -(a * b)) by (nonlinear_arith);
    }
}

/// Limits `v` to `[lo, hi]`.
pub fn clamp_i128(v: i128, lo: i128, hi: i128) -> (r: i128)
    requires
        lo <= hi,
    ensures
        r == clamp_to(v as int, lo as int, hi as int),
{
    if v < lo {
        lo
    } else if v > hi {
        hi
    } else {
        v
    }
}

} // verus!
