//! Accounting core of a constant-product liquidity pool.
//!
//! The crate decides, for every deposit, withdrawal and swap, how many units
//! of the two reserve assets and of the pool-share asset change hands. All
//! balances are plain integers; moving real assets is left to the caller.

use vstd::prelude::*;

pub mod error;
pub mod rounding;
pub mod curve;
pub mod state;
pub mod instructions;
pub mod laws;

use crate::curve::{XYAmounts, BPS_DENOMINATOR};
use crate::error::AmmError;
use crate::instructions::deposit::Deposit;
use crate::instructions::swap::{Swap, SwapResult};
use crate::instructions::withdraw::Withdraw;
use crate::state::Pool;

verus! {

/// Creates a pool without reserves or shares, unlocked, with the given fee.
/// A fee of a whole or more is refused.
pub fn initialize(fee: u16, authority: Option<[u8; 32]>) -> (r: Option<Pool>)
    ensures
        r is Some <==> fee < BPS_DENOMINATOR,
        r matches Some(pool) ==> pool == (Pool {
            reserve_x_balance: 0,
            reserve_y_balance: 0,
            share_supply: 0,
            fee_bps: fee,
            authority,
            locked: false,
        }) && pool.well_formed(),
{
    if fee >= BPS_DENOMINATOR {
        return None;
    }
    Some(
        Pool {
            reserve_x_balance: 0,
            reserve_y_balance: 0,
            share_supply: 0,
            fee_bps: fee,
            authority,
            locked: false,
        },
    )
}

/// Deposits for `amount` shares, paying at most `max_x` and `max_y`: on
/// success the amounts paid, on failure the reason, with no balance changed.
pub fn deposit(ctx: &mut Deposit, amount: u64, max_x: u64, max_y: u64) -> (r: Result<
    XYAmounts,
    AmmError,
>)
    ensures
        r == old(ctx).outcome(amount, max_x, max_y),
        r matches Ok(amounts) ==> *final(ctx) == old(ctx).settled(amount, amounts),
        r is Err ==> *final(ctx) == *old(ctx),
{
    ctx.deposit(amount, max_x, max_y)
}

/// Burns `amount` shares for at least `min_x` and `min_y`: on success the
/// amounts received, on failure the reason, with no balance changed.
pub fn withdraw(ctx: &mut Withdraw, amount: u64, min_x: u64, min_y: u64) -> (r: Result<
    XYAmounts,
    AmmError,
>)
    ensures
        r == old(ctx).outcome(amount, min_x, min_y),
        r matches Ok(amounts) ==> *final(ctx) == old(ctx).settled(amount, amounts),
        r is Err ==> *final(ctx) == *old(ctx),
{
    ctx.withdraw(amount, min_x, min_y)
}

/// Swaps `amount` of asset X (`is_x`) or asset Y for at least `min` of the
/// other: on success the amounts moved, on failure the reason, with no
/// balance changed.
pub fn swap(ctx: &mut Swap, is_x: bool, amount: u64, min: u64) -> (r: Result<SwapResult, AmmError>)
    ensures
        r == old(ctx).outcome(is_x, amount, min),
        r matches Ok(moved) ==> *final(ctx) == old(ctx).settled(
            is_x,
            moved.deposit,
            moved.withdraw,
        ),
        r is Err ==> *final(ctx) == *old(ctx),
{
    ctx.swap(is_x, amount, min)
}

} // verus!
