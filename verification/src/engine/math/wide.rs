//! Products of two 128-bit numbers, kept exactly in 256 bits.

use vstd::prelude::*;

verus! {

/// Two to the power of 64: the base in which a 128-bit number has two digits.
pub const BASE: u128 = 0x1_0000_0000_0000_0000;

/// The number that the pair `(hi, lo)` stands for: `hi` times two to the
/// power of 128, plus `lo`.
pub open spec fn wide_value(hi: u128, lo: u128) -> int {
    hi * 0x1_0000_0000_0000_0000_0000_0000_0000_0000int + lo
}

proof fn lemma_digit_product_fits(x: u128, y: u128)
    by (nonlinear_arith)
    requires
        x < 0x1_0000_0000_0000_0000,
        y < 0x1_0000_0000_0000_0000,
    ensures
        x * y <= 0xffff_ffff_ffff_ffff * 0xffff_ffff_ffff_ffff,
{
}

proof fn lemma_split_product(a: int, b: int, a1: int, a0: int, b1: int, b0: int, w: int)
    requires
        a == a1 * w + a0,
        b == b1 * w + b0,
    ensures
        a * b == (a1 * b1) * (w * w) + (a0 * b1) * w + (a1 * b0) * w + a0 * b0,
{
    assert((a1 * w + a0) * b == (a1 * w) * b + a0 * b) by (nonlinear_arith);
    assert((a1 * w) * (b1 * w + b0) == (a1 * w) * (b1 * w) + (a1 * w) * b0) by (nonlinear_arith);
    assert(a0 * (b1 * w + b0) == a0 * (b1 * w) + a0 * b0) by (nonlinear_arith);
    assert((a1 * w) * (b1 * w) == (a1 * b1) * (w * w)) by (nonlinear_arith);
    assert((a1 * w) * b0 == (a1 * b0) * w) by (nonlinear_arith);
    assert(a0 * (b1 * w) == (a0 * b1) * w) by (nonlinear_arith);
}

proof fn lemma_product_below_square(a: int, b: int, w: int)
    by (nonlinear_arith)
    requires
        0 <= a < w,
        0 <= b < w,
    ensures
        a * b < w * w,
{
}

/// The full product of `a` and `b` as a pair of its high and low halves.
pub fn mul_wide(a: u128, b: u128) -> (r: (u128, u128))
    ensures
        wide_value(r.0, r.1) == a * b,
{
    let a0: u128 = a % BASE;
    let a1: u128 = a / BASE;
    let b0: u128 = b % BASE;
    let b1: u128 = b / BASE;
    proof {
        lemma_digit_product_fits(a0, b0);
        lemma_digit_product_fits(a0, b1);
        lemma_digit_product_fits(a1, b0);
        lemma_digit_product_fits(a1, b1);
    }
    let p00: u128 = a0 * b0;
    let p01: u128 = a0 * b1;
    let p10: u128 = a1 * b0;
    let p11: u128 = a1 * b1;
    let mid: u128 = p00 / BASE + p01 % BASE + p10 % BASE;
    let lo: u128 = p00 % BASE + (mid % BASE) * BASE;
    proof {
        let w: int = 0x1_0000_0000_0000_0000int;
        lemma_split_product(a as int, b as int, a1 as int, a0 as int, b1 as int, b0 as int, w);
        lemma_product_below_square(a as int, b as int, w * w);
        assert(w * w == 0x1_0000_0000_0000_0000_0000_0000_0000_0000int);
        assert(a * b == (p11 + p01 / BASE + p10 / BASE + mid / BASE) * (w * w) + lo);
    }
    let hi: u128 = p11 + p01 / BASE + p10 / BASE + mid / BASE;
    (hi, lo)
}

/// Whether `a * b` is less than `c * d`, decided without overflow.
pub fn product_lt(a: u128, b: u128, c: u128, d: u128) -> (less: bool)
    ensures
        less == (a * b < c * d),
{
    let (h1, l1) = mul_wide(a, b);
    let (h2, l2) = mul_wide(c, d);
    h1 < h2 || (h1 == h2 && l1 < l2)
}

} // verus!
