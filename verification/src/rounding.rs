//! Proportional shares of a reserve, rounded down or up, and what the two
//! roundings guarantee.

use vstd::prelude::*;
use vstd::arithmetic::div_mod::{lemma_fundamental_div_mod, lemma_mod_bound};

verus! {

/// `part * reserve / whole`, rounded down.
pub open spec fn share_floor(part: int, reserve: int, whole: int) -> int {
    (part * reserve) / whole
}

/// `part * reserve / whole`, rounded up.
pub open spec fn share_ceil(part: int, reserve: int, whole: int) -> int {
    (part * reserve + whole - 1) / whole
}

/// The product of two 64-bit values fits in 128 bits, with room left to add
/// a further 64-bit value.
pub proof fn lemma_product_fits(a: u64, b: u64)
    ensures
        0 <= a * b,
        a * b + u64::MAX <= u128::MAX,
{
    assert(0 <= a * b <= 0xffff_ffff_ffff_ffff * 0xffff_ffff_ffff_ffff) by (nonlinear_arith)
        requires
            0 <= a <= 0xffff_ffff_ffff_ffff,
            0 <= b <= 0xffff_ffff_ffff_ffff,
    ;
}

/// A product of two non-negative numbers is non-negative.
pub proof fn lemma_product_nonnegative(a: int, b: int)
    requires
        0 <= a,
        0 <= b,
    ensures
        0 <= a * b,
{
    assert(0 <= a * b) by (nonlinear_arith)
        requires
            0 <= a,
            0 <= b,
    ;
}

/// Rounding down gives the greatest whole amount whose worth, at the pool's
/// rate, does not exceed the part: `f * whole <= part * reserve < (f + 1) * whole`.
pub proof fn lemma_share_floor_is_greatest(part: int, reserve: int, whole: int)
    requires
        0 <= part,
        0 <= reserve,
        0 < whole,
    ensures
        0 <= share_floor(part, reserve, whole),
        share_floor(part, reserve, whole) * whole <= part * reserve,
        part * reserve < (share_floor(part, reserve, whole) + 1) * whole,
{
    let p = part * reserve;
    let f = p / whole;
    lemma_product_nonnegative(part, reserve);
    lemma_fundamental_div_mod(p, whole);
    lemma_mod_bound(p, whole);
    assert(f * whole == whole * f) by (nonlinear_arith);
    assert((f + 1) * whole == whole * f + whole) by (nonlinear_arith);
    assert(0 <= f) by (nonlinear_arith)
        requires
            0 < whole,
            whole * f + whole > 0,
    ;
}

/// Rounding up gives the least whole amount whose worth, at the pool's rate,
/// covers the part: `(c - 1) * whole < part * reserve <= c * whole`.
pub proof fn lemma_share_ceil_is_least(part: int, reserve: int, whole: int)
    requires
        0 <= part,
        0 <= reserve,
        0 < whole,
    ensures
        0 <= share_ceil(part, reserve, whole),
        part * reserve <= share_ceil(part, reserve, whole) * whole,
        (share_ceil(part, reserve, whole) - 1) * whole < part * reserve,
{
    let p = part * reserve;
    let n = p + whole - 1;
    let c = n / whole;
    lemma_product_nonnegative(part, reserve);
    lemma_fundamental_div_mod(n, whole);
    lemma_mod_bound(n, whole);
    assert(c * whole == whole * c) by (nonlinear_arith);
    assert((c - 1) * whole == whole * c - whole) by (nonlinear_arith);
    assert(0 <= c) by (nonlinear_arith)
        requires
            0 < whole,
            whole * c >= 0,
    ;
}

/// The two roundings differ by at most one unit, and rounding up is never
/// the smaller.
pub proof fn lemma_share_floor_le_ceil(part: int, reserve: int, whole: int)
    requires
        0 <= part,
        0 <= reserve,
        0 < whole,
    ensures
        share_floor(part, reserve, whole) <= share_ceil(part, reserve, whole),
        share_ceil(part, reserve, whole) <= share_floor(part, reserve, whole) + 1,
{
    let f = share_floor(part, reserve, whole);
    let c = share_ceil(part, reserve, whole);
    lemma_share_floor_is_greatest(part, reserve, whole);
    lemma_share_ceil_is_least(part, reserve, whole);
    assert(f <= c) by (nonlinear_arith)
        requires
            0 < whole,
            f * whole <= c * whole,
    ;
    assert(c - 1 < f + 1) by (nonlinear_arith)
        requires
            0 < whole,
            (c - 1) * whole < (f + 1) * whole,
    ;
}

/// A share of the reserve that is no larger than the whole is no larger than
/// the reserve.
pub proof fn lemma_share_floor_bounded(part: int, reserve: int, whole: int)
    requires
        0 <= part <= whole,
        0 <= reserve,
        0 < whole,
    ensures
        share_floor(part, reserve, whole) <= reserve,
{
    let f = share_floor(part, reserve, whole);
    lemma_share_floor_is_greatest(part, reserve, whole);
    assert(part * reserve <= whole * reserve) by (nonlinear_arith)
        requires
            0 <= part <= whole,
            0 <= reserve,
    ;
    assert(f <= reserve) by (nonlinear_arith)
        requires
            0 < whole,
            f * whole <= whole * reserve,
    ;
}

/// Dividing by a larger divisor gives no larger a quotient.
pub proof fn lemma_quotient_shrinks(product: int, small: int, large: int)
    requires
        0 <= product,
        0 < small <= large,
    ensures
        0 <= product / large <= product / small,
{
    let ql = product / large;
    let qs = product / small;
    lemma_fundamental_div_mod(product, large);
    lemma_mod_bound(product, large);
    lemma_fundamental_div_mod(product, small);
    lemma_mod_bound(product, small);
    assert(0 <= ql) by (nonlinear_arith)
        requires
            0 < large,
            large * ql + large > 0,
    ;
    assert(ql <= qs) by (nonlinear_arith)
        requires
            0 < small <= large,
            0 <= ql,
            large * ql <= product,
            product < small * qs + small,
    ;
}

} // verus!
