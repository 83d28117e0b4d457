//! Invariant math: pure functions from reserves and a request to amounts.
//!
//! Amounts that a depositor owes are rounded up and amounts that the pool
//! pays out are rounded down, so that no sequence of requests can take value
//! out of the pool through rounding.

use vstd::prelude::*;
use crate::error::AmmError;
use crate::laws::lemma_zero_fee_swap_exact;
use crate::rounding::{
    lemma_product_fits, lemma_product_nonnegative, lemma_quotient_shrinks,
    lemma_share_floor_is_greatest, share_ceil, share_floor,
};

verus! {

/// Basis points in a whole: a fee of this many basis points would take the
/// whole input.
pub const BPS_DENOMINATOR: u16 = 10000;

/// A pair of amounts, one of each reserve asset.
#[derive(Clone, Copy, Debug, PartialEq, Eq, Structural)]
pub struct XYAmounts {
    pub x: u64,
    pub y: u64,
}

/// What is left of `amount_in` once a fee of `fee_bps` basis points has been
/// taken from it, rounded down.
pub open spec fn net_of_fee(amount_in: int, fee_bps: int) -> int {
    amount_in * (BPS_DENOMINATOR - fee_bps) / (BPS_DENOMINATOR as int)
}

/// The output that the constant-product formula grants for a net input:
/// the output reserve less the quotient of the old product by the new input
/// reserve.
pub open spec fn constant_product_out(reserve_in: int, reserve_out: int, net_in: int) -> int {
    reserve_out - (reserve_in * reserve_out) / (reserve_in + net_in)
}

/// The amounts that a deposit of `requested_shares` owes.
///
/// Into a pool without shares the caller's bounds are the amounts. Otherwise
/// each amount is the requested part of its reserve, rounded up; a pool that
/// has shares but lacks a reserve, or an amount beyond 64 bits, is an error.
pub open spec fn spec_proportional_deposit(
    reserve_x: u64,
    reserve_y: u64,
    share_supply: u64,
    requested_shares: u64,
    max_amount_x: u64,
    max_amount_y: u64,
) -> Result<XYAmounts, AmmError> {
    if share_supply == 0 {
        Ok(XYAmounts { x: max_amount_x, y: max_amount_y })
    } else if reserve_x == 0 || reserve_y == 0 {
        Err(AmmError::MathError)
    } else {
        let x = share_ceil(requested_shares as int, reserve_x as int, share_supply as int);
        let y = share_ceil(requested_shares as int, reserve_y as int, share_supply as int);
        if x > u64::MAX || y > u64::MAX {
            Err(AmmError::MathError)
        } else {
            Ok(XYAmounts { x: x as u64, y: y as u64 })
        }
    }
}

/// The amounts that burning `shares_to_burn` pays out: the burnt part of each
/// reserve, rounded down. A pool without shares has no liquidity; an amount
/// beyond 64 bits is an error.
pub open spec fn spec_proportional_withdraw(
    reserve_x: u64,
    reserve_y: u64,
    share_supply: u64,
    shares_to_burn: u64,
) -> Result<XYAmounts, AmmError> {
    if share_supply == 0 {
        Err(AmmError::NoLiquidity)
    } else {
        let x = share_floor(shares_to_burn as int, reserve_x as int, share_supply as int);
        let y = share_floor(shares_to_burn as int, reserve_y as int, share_supply as int);
        if x > u64::MAX || y > u64::MAX {
            Err(AmmError::MathError)
        } else {
            Ok(XYAmounts { x: x as u64, y: y as u64 })
        }
    }
}

/// The output of a swap. An empty reserve on either side means no liquidity.
/// A fee of a whole or more, or an input of which the fee leaves nothing, is
/// an error.
pub open spec fn spec_swap_amount_out(
    reserve_in: u64,
    reserve_out: u64,
    fee_bps: u16,
    amount_in: u64,
) -> Result<u64, AmmError> {
    if reserve_in == 0 || reserve_out == 0 {
        Err(AmmError::NoLiquidity)
    } else if fee_bps >= BPS_DENOMINATOR || net_of_fee(amount_in as int, fee_bps as int) == 0 {
        Err(AmmError::MathError)
    } else {
        Ok(
            constant_product_out(
                reserve_in as int,
                reserve_out as int,
                net_of_fee(amount_in as int, fee_bps as int),
            ) as u64,
        )
    }
}

/// The net input lies between nothing and the whole input.
pub proof fn lemma_net_of_fee_bounded(amount_in: int, fee_bps: int)
    requires
        0 <= amount_in,
        0 <= fee_bps <= BPS_DENOMINATOR,
    ensures
        0 <= net_of_fee(amount_in, fee_bps) <= amount_in,
{
    let keep = BPS_DENOMINATOR - fee_bps;
    lemma_share_floor_is_greatest(amount_in, keep, BPS_DENOMINATOR as int);
    let net = net_of_fee(amount_in, fee_bps);
    assert(net == share_floor(amount_in, keep, BPS_DENOMINATOR as int));
    assert(amount_in * keep <= amount_in * 10000) by (nonlinear_arith)
        requires
            0 <= amount_in,
            keep <= 10000,
    ;
}

/// The output of the constant-product formula lies between nothing and the
/// whole output reserve.
pub proof fn lemma_constant_product_out_bounded(reserve_in: int, reserve_out: int, net_in: int)
    requires
        0 < reserve_in,
        0 <= reserve_out,
        0 <= net_in,
    ensures
        0 <= constant_product_out(reserve_in, reserve_out, net_in) <= reserve_out,
{
    let k = reserve_in * reserve_out;
    lemma_product_nonnegative(reserve_in, reserve_out);
    lemma_quotient_shrinks(k, reserve_in, reserve_in + net_in);
    assert(k / reserve_in == reserve_out) by {
        vstd::arithmetic::div_mod::lemma_div_multiples_vanish(reserve_out, reserve_in);
    }
}

/// Computes `part * reserve / whole` rounded down, in 128 bits.
fn mul_div_floor(part: u64, reserve: u64, whole: u64) -> (q: u128)
    requires
        whole > 0,
    ensures
        q == share_floor(part as int, reserve as int, whole as int),
{
    proof {
        lemma_product_fits(part, reserve);
    }
    let product: u128 = (part as u128) * (reserve as u128);
    product / (whole as u128)
}

/// Computes `part * reserve / whole` rounded up, in 128 bits.
fn mul_div_ceil(part: u64, reserve: u64, whole: u64) -> (q: u128)
    requires
        whole > 0,
    ensures
        q == share_ceil(part as int, reserve as int, whole as int),
{
    proof {
        lemma_product_fits(part, reserve);
    }
    let product: u128 = (part as u128) * (reserve as u128);
    (product + (whole as u128 - 1)) / (whole as u128)
}

/// Narrows two 128-bit amounts to a pair of 64-bit amounts, or reports that
/// one of them does not fit.
fn narrow_amounts(x: u128, y: u128) -> (r: Result<XYAmounts, AmmError>)
    ensures
        r == if x > u64::MAX || y > u64::MAX {
            Err::<XYAmounts, AmmError>(AmmError::MathError)
        } else {
            Ok(XYAmounts { x: x as u64, y: y as u64 })
        },
{
    if x > u64::MAX as u128 || y > u64::MAX as u128 {
        Err(AmmError::MathError)
    } else {
        Ok(XYAmounts { x: x as u64, y: y as u64 })
    }
}

/// Computes the amounts of both assets owed for `requested_shares`.
///
/// The first deposit into a pool sets its price: with no shares outstanding
/// the two bounds are returned as the amounts.
pub fn proportional_deposit(
    reserve_x: u64,
    reserve_y: u64,
    share_supply: u64,
    requested_shares: u64,
    max_amount_x: u64,
    max_amount_y: u64,
) -> (r: Result<XYAmounts, AmmError>)
    ensures
        r == spec_proportional_deposit(
            reserve_x,
            reserve_y,
            share_supply,
            requested_shares,
            max_amount_x,
            max_amount_y,
        ),
        share_supply == 0 ==> r == Ok::<XYAmounts, AmmError>(
            XYAmounts { x: max_amount_x, y: max_amount_y },
        ),
{
    if share_supply == 0 {
        return Ok(XYAmounts { x: max_amount_x, y: max_amount_y });
    }
    if reserve_x == 0 || reserve_y == 0 {
        return Err(AmmError::MathError);
    }
    let x: u128 = mul_div_ceil(requested_shares, reserve_x, share_supply);
    let y: u128 = mul_div_ceil(requested_shares, reserve_y, share_supply);
    narrow_amounts(x, y)
}

/// Computes the amounts of both assets paid out for `shares_to_burn`.
pub fn proportional_withdraw(
    reserve_x: u64,
    reserve_y: u64,
    share_supply: u64,
    shares_to_burn: u64,
) -> (r: Result<XYAmounts, AmmError>)
    ensures
        r == spec_proportional_withdraw(reserve_x, reserve_y, share_supply, shares_to_burn),
{
    if share_supply == 0 {
        return Err(AmmError::NoLiquidity);
    }
    let x: u128 = mul_div_floor(shares_to_burn, reserve_x, share_supply);
    let y: u128 = mul_div_floor(shares_to_burn, reserve_y, share_supply);
    narrow_amounts(x, y)
}

/// Computes what is left of `amount_in` after the fee.
pub(crate) fn amount_in_net(amount_in: u64, fee_bps: u16) -> (net: u64)
    requires
        fee_bps <= BPS_DENOMINATOR,
    ensures
        net == net_of_fee(amount_in as int, fee_bps as int),
        net <= amount_in,
{
    let keep: u16 = BPS_DENOMINATOR - fee_bps;
    proof {
        lemma_net_of_fee_bounded(amount_in as int, fee_bps as int);
        assert(amount_in * keep <= 0xffff_ffff_ffff_ffff * 10000) by (nonlinear_arith)
            requires
                0 <= amount_in <= 0xffff_ffff_ffff_ffff,
                0 <= keep <= 10000,
        ;
        lemma_product_nonnegative(amount_in as int, keep as int);
    }
    let scaled: u128 = (amount_in as u128) * (keep as u128);
    (scaled / (BPS_DENOMINATOR as u128)) as u64
}

/// Computes the output of a swap of `amount_in` against the two reserves.
///
/// The fee is taken from the input first; the constant-product formula is
/// applied to what is left.
pub fn swap_amount_out(reserve_in: u64, reserve_out: u64, fee_bps: u16, amount_in: u64) -> (r:
    Result<u64, AmmError>)
    ensures
        r == spec_swap_amount_out(reserve_in, reserve_out, fee_bps, amount_in),
        r matches Ok(out) ==> out <= reserve_out,
        fee_bps == 0 ==> (r matches Ok(out) ==> out == reserve_out - (reserve_in * reserve_out) / (
            reserve_in + amount_in)),
{
    if reserve_in == 0 || reserve_out == 0 {
        return Err(AmmError::NoLiquidity);
    }
    if fee_bps >= BPS_DENOMINATOR {
        return Err(AmmError::MathError);
    }
    let net: u64 = amount_in_net(amount_in, fee_bps);
    if net == 0 {
        return Err(AmmError::MathError);
    }
    proof {
        lemma_product_fits(reserve_in, reserve_out);
        lemma_constant_product_out_bounded(reserve_in as int, reserve_out as int, net as int);
    }
    proof {
        if fee_bps == 0 {
            lemma_zero_fee_swap_exact(reserve_in, reserve_out, amount_in);
        }
    }
    let product: u128 = (reserve_in as u128) * (reserve_out as u128);
    let new_reserve_in: u128 = reserve_in as u128 + net as u128;
    let new_reserve_out: u128 = product / new_reserve_in;
    Ok((reserve_out as u128 - new_reserve_out) as u64)
}

} // verus!
