//! What holds of the pool whatever is asked of it.

use vstd::prelude::*;
use vstd::arithmetic::div_mod::{
    lemma_div_multiples_vanish, lemma_fundamental_div_mod, lemma_mod_bound,
};
use crate::curve::{
    lemma_constant_product_out_bounded, lemma_net_of_fee_bounded, net_of_fee,
    spec_proportional_deposit, spec_proportional_withdraw, spec_swap_amount_out, XYAmounts,
};
use crate::error::AmmError;
use crate::instructions::deposit::Deposit;
use crate::instructions::swap::{Swap, SwapResult};
use crate::instructions::withdraw::Withdraw;
use crate::rounding::{
    lemma_share_ceil_is_least, lemma_share_floor_bounded, lemma_share_floor_is_greatest,
    lemma_share_floor_le_ceil, share_ceil, share_floor,
};

verus! {

/// A locked pool refuses every request with `PoolLocked`, whatever else is
/// wrong with it.
pub proof fn lemma_locked_pool_rejects(
    deposit: Deposit,
    withdraw: Withdraw,
    swap: Swap,
    amount: u64,
    bound_x: u64,
    bound_y: u64,
    is_x: bool,
)
    ensures
        deposit.pool.locked ==> deposit.outcome(amount, bound_x, bound_y) == Err::<
            XYAmounts,
            AmmError,
        >(AmmError::PoolLocked),
        withdraw.pool.locked ==> withdraw.outcome(amount, bound_x, bound_y) == Err::<
            XYAmounts,
            AmmError,
        >(AmmError::PoolLocked),
        swap.pool.locked ==> swap.outcome(is_x, amount, bound_x) == Err::<SwapResult, AmmError>(
            AmmError::PoolLocked,
        ),
{
}

/// No request changes the pool's fee, authority or lock.
pub proof fn lemma_settings_never_change(
    deposit: Deposit,
    withdraw: Withdraw,
    swap: Swap,
    shares: u64,
    amounts: XYAmounts,
    is_x: bool,
    amount_in: u64,
    amount_out: u64,
)
    ensures
        deposit.settled(shares, amounts).pool.same_settings(deposit.pool),
        withdraw.settled(shares, amounts).pool.same_settings(withdraw.pool),
        swap.settled(is_x, amount_in, amount_out).pool.same_settings(swap.pool),
        swap.settled(is_x, amount_in, amount_out).pool.share_supply == swap.pool.share_supply,
        swap.settled(is_x, amount_in, amount_out).user.shares == swap.user.shares,
{
}

/// Without a fee the output is the constant-product formula applied to the
/// whole input: `reserve_out - reserve_in * reserve_out / (reserve_in + amount_in)`.
pub proof fn lemma_zero_fee_swap_exact(reserve_in: u64, reserve_out: u64, amount_in: u64)
    requires
        reserve_in > 0,
        reserve_out > 0,
        amount_in > 0,
    ensures
        spec_swap_amount_out(reserve_in, reserve_out, 0, amount_in) matches Ok(out) && out
            == reserve_out - (reserve_in * reserve_out) / (reserve_in + amount_in),
{
    assert(net_of_fee(amount_in as int, 0) == amount_in) by {
        lemma_div_multiples_vanish(amount_in as int, 10000);
        assert(amount_in * 10000 == 10000 * amount_in) by (nonlinear_arith);
    }
    lemma_constant_product_out_bounded(reserve_in as int, reserve_out as int, amount_in as int);
}

/// What a swap does to the product of the reserves, exactly: the fee that
/// stays in the pool adds `fee * new_reserve_out`, and rounding the new
/// output reserve down takes the remainder of the division away. So the
/// product falls exactly when the remainder is the larger of the two.
pub proof fn lemma_swap_product_change(
    reserve_in: u64,
    reserve_out: u64,
    fee_bps: u16,
    amount_in: u64,
    out: u64,
)
    requires
        spec_swap_amount_out(reserve_in, reserve_out, fee_bps, amount_in) == Ok::<u64, AmmError>(
            out,
        ),
    ensures
        0 < net_of_fee(amount_in as int, fee_bps as int) <= amount_in,
        out <= reserve_out,
        (reserve_in + amount_in) * (reserve_out - out) - reserve_in * reserve_out == (amount_in
            - net_of_fee(amount_in as int, fee_bps as int)) * (reserve_out - out) - (reserve_in
            * reserve_out) % (reserve_in + net_of_fee(amount_in as int, fee_bps as int)),
        (reserve_in + amount_in) * (reserve_out - out) < reserve_in * reserve_out <==> (amount_in
            - net_of_fee(amount_in as int, fee_bps as int)) * (reserve_out - out) < (reserve_in
            * reserve_out) % (reserve_in + net_of_fee(amount_in as int, fee_bps as int)),
{
    let net = net_of_fee(amount_in as int, fee_bps as int);
    let fee = amount_in - net;
    let k = reserve_in * reserve_out;
    let d = reserve_in + net;
    let q = k / d;
    lemma_net_of_fee_bounded(amount_in as int, fee_bps as int);
    lemma_constant_product_out_bounded(reserve_in as int, reserve_out as int, net);
    lemma_fundamental_div_mod(k, d);
    assert((d + fee) * q == d * q + fee * q) by (nonlinear_arith);
}

/// A swap does not decrease the product of the reserves, provided that the
/// fee kept in the pool, priced at the new output reserve, makes up for the
/// remainder lost in rounding that reserve down.
pub proof fn lemma_swap_invariant_non_decrease(
    reserve_in: u64,
    reserve_out: u64,
    fee_bps: u16,
    amount_in: u64,
    out: u64,
)
    requires
        spec_swap_amount_out(reserve_in, reserve_out, fee_bps, amount_in) == Ok::<u64, AmmError>(
            out,
        ),
        (amount_in - net_of_fee(amount_in as int, fee_bps as int)) * (reserve_out - out) >= (
        reserve_in * reserve_out) % (reserve_in + net_of_fee(amount_in as int, fee_bps as int)),
    ensures
        (reserve_in + amount_in) * (reserve_out - out) >= reserve_in * reserve_out,
{
    lemma_swap_product_change(reserve_in, reserve_out, fee_bps, amount_in, out);
}

/// Priced at the net input, a swap leaves the product of the reserves at
/// most where it was and less than one new input reserve below it: the new
/// output reserve is the quotient of the old product, rounded down.
pub proof fn lemma_swap_product_within_rounding(
    reserve_in: u64,
    reserve_out: u64,
    fee_bps: u16,
    amount_in: u64,
    out: u64,
)
    requires
        spec_swap_amount_out(reserve_in, reserve_out, fee_bps, amount_in) == Ok::<u64, AmmError>(
            out,
        ),
    ensures
        (reserve_in + net_of_fee(amount_in as int, fee_bps as int)) * (reserve_out - out)
            <= reserve_in * reserve_out,
        reserve_in * reserve_out < (reserve_in + net_of_fee(amount_in as int, fee_bps as int)) * (
        reserve_out - out + 1),
{
    let net = net_of_fee(amount_in as int, fee_bps as int);
    let k = reserve_in * reserve_out;
    let d = reserve_in + net;
    let q = k / d;
    lemma_net_of_fee_bounded(amount_in as int, fee_bps as int);
    lemma_constant_product_out_bounded(reserve_in as int, reserve_out as int, net);
    lemma_fundamental_div_mod(k, d);
    lemma_mod_bound(k, d);
    assert(d * (q + 1) == d * q + d) by (nonlinear_arith);
}

/// The pool after a swap obeys the same account of the product: it has
/// changed by the fee, priced at the new output reserve, less the remainder
/// lost in rounding, and so has not fallen if the fee covers the rounding.
pub proof fn lemma_swap_settles_product(
    before: Swap,
    is_x: bool,
    amount: u64,
    min: u64,
    moved: SwapResult,
)
    requires
        before.outcome(is_x, amount, min) == Ok::<SwapResult, AmmError>(moved),
    ensures
        ({
            let after = before.settled(is_x, moved.deposit, moved.withdraw);
            let remainder = before.pool.product() % (before.reserve_in(is_x) + amount - moved.fee);
            &&& after.pool.product() - before.pool.product() == moved.fee * after.reserve_out(
                is_x,
            ) - remainder
            &&& moved.fee * after.reserve_out(is_x) >= remainder ==> after.pool.product()
                >= before.pool.product()
        }),
{
    let rin = before.reserve_in(is_x);
    let rout = before.reserve_out(is_x);
    lemma_swap_product_change(rin, rout, before.pool.fee_bps, amount, moved.withdraw);
    assert(rin * rout == rout * rin) by (nonlinear_arith);
    assert((rin + amount) * (rout - moved.withdraw) == (rout - moved.withdraw) * (rin + amount))
        by (nonlinear_arith);
}

/// Into a pool without shares a deposit pays exactly the two bounds,
/// whatever number of shares is requested.
pub proof fn lemma_virgin_deposit_takes_bounds(
    before: Deposit,
    amount: u64,
    max_x: u64,
    max_y: u64,
)
    requires
        !before.pool.locked,
        before.pool.share_supply == 0,
        before.can_settle(amount, XYAmounts { x: max_x, y: max_y }),
    ensures
        before.outcome(amount, max_x, max_y) == Ok::<XYAmounts, AmmError>(
            XYAmounts { x: max_x, y: max_y },
        ),
{
}

/// Into a pool that has shares, a deposit bounded by exactly the amounts
/// that it owes goes through, and one bounded by a unit less on either side
/// is refused for slippage.
pub proof fn lemma_deposit_slippage_boundary(before: Deposit, amount: u64, owed: XYAmounts)
    requires
        !before.pool.locked,
        before.pool.share_supply > 0,
        spec_proportional_deposit(
            before.pool.reserve_x_balance,
            before.pool.reserve_y_balance,
            before.pool.share_supply,
            amount,
            owed.x,
            owed.y,
        ) == Ok::<XYAmounts, AmmError>(owed),
        before.can_settle(amount, owed),
    ensures
        before.outcome(amount, owed.x, owed.y) == Ok::<XYAmounts, AmmError>(owed),
        owed.x > 0 ==> before.outcome(amount, (owed.x - 1) as u64, owed.y) == Err::<
            XYAmounts,
            AmmError,
        >(AmmError::SlippageExceeded),
        owed.y > 0 ==> before.outcome(amount, owed.x, (owed.y - 1) as u64) == Err::<
            XYAmounts,
            AmmError,
        >(AmmError::SlippageExceeded),
{
}

/// What is owed for a part of a reserve, rounded up, is at least what the
/// same part of the enlarged reserve pays out, rounded down.
pub proof fn lemma_round_trip_amount(shares: int, reserve: int, supply: int)
    requires
        0 <= shares,
        0 <= reserve,
        0 < supply,
    ensures
        share_floor(shares, reserve + share_ceil(shares, reserve, supply), supply + shares)
            <= share_ceil(shares, reserve, supply),
{
    let paid = share_ceil(shares, reserve, supply);
    let got = share_floor(shares, reserve + paid, supply + shares);
    lemma_share_ceil_is_least(shares, reserve, supply);
    lemma_share_floor_is_greatest(shares, reserve + paid, supply + shares);
    assert(shares * (reserve + paid) == shares * reserve + shares * paid) by (nonlinear_arith);
    assert(paid * (supply + shares) == paid * supply + shares * paid) by (nonlinear_arith);
    assert(got <= paid) by (nonlinear_arith)
        requires
            0 < supply + shares,
            got * (supply + shares) <= paid * (supply + shares),
    ;
}

/// Depositing for some shares and burning as many at once returns no more of
/// either asset than was paid, and leaves the share supply where it was.
pub proof fn lemma_deposit_withdraw_round_trip(
    before: Deposit,
    amount: u64,
    max_x: u64,
    max_y: u64,
    min_x: u64,
    min_y: u64,
)
    requires
        before.pool.well_formed(),
        before.outcome(amount, max_x, max_y) is Ok,
        ({
            let paid = before.outcome(amount, max_x, max_y)->Ok_0;
            let between = before.settled(amount, paid);
            (Withdraw { pool: between.pool, user: between.user }).outcome(amount, min_x, min_y)
                is Ok
        }),
    ensures
        ({
            let paid = before.outcome(amount, max_x, max_y)->Ok_0;
            let between = before.settled(amount, paid);
            let leaving = Withdraw { pool: between.pool, user: between.user };
            let got = leaving.outcome(amount, min_x, min_y)->Ok_0;
            let after = leaving.settled(amount, got);
            &&& got.x <= paid.x
            &&& got.y <= paid.y
            &&& after.pool.share_supply == before.pool.share_supply
            &&& after.user.shares == before.user.shares
            &&& after.user.balance_x <= before.user.balance_x
            &&& after.user.balance_y <= before.user.balance_y
            &&& after.pool.reserve_x_balance >= before.pool.reserve_x_balance
            &&& after.pool.reserve_y_balance >= before.pool.reserve_y_balance
        }),
{
    let paid = before.outcome(amount, max_x, max_y)->Ok_0;
    let supply = before.pool.share_supply as int;
    let rx = before.pool.reserve_x_balance as int;
    let ry = before.pool.reserve_y_balance as int;
    if supply == 0 {
        assert(amount > 0);
        lemma_div_multiples_vanish(paid.x as int, amount as int);
        lemma_div_multiples_vanish(paid.y as int, amount as int);
    } else {
        lemma_round_trip_amount(amount as int, rx, supply);
        lemma_round_trip_amount(amount as int, ry, supply);
    }
}

/// A deposit leaves a well-formed pool well formed. The first deposit does
/// so when it asks for shares and pays something, or does neither.
pub proof fn lemma_deposit_preserves_well_formed(
    before: Deposit,
    amount: u64,
    max_x: u64,
    max_y: u64,
)
    requires
        before.pool.well_formed(),
        before.outcome(amount, max_x, max_y) is Ok,
        before.pool.share_supply == 0 ==> (amount == 0 <==> max_x == 0 && max_y == 0),
    ensures
        before.settled(amount, before.outcome(amount, max_x, max_y)->Ok_0).pool.well_formed(),
{
}

/// Burning no more shares than exist asks for no more of either asset than
/// the pool holds, so the arithmetic cannot fail and custody can pay.
pub proof fn lemma_withdraw_within_reserves(
    reserve_x: u64,
    reserve_y: u64,
    share_supply: u64,
    shares_to_burn: u64,
)
    requires
        0 < share_supply,
        shares_to_burn <= share_supply,
    ensures
        spec_proportional_withdraw(reserve_x, reserve_y, share_supply, shares_to_burn) matches Ok(
            amounts,
        ) && amounts.x <= reserve_x && amounts.y <= reserve_y,
{
    lemma_share_floor_bounded(shares_to_burn as int, reserve_x as int, share_supply as int);
    lemma_share_floor_bounded(shares_to_burn as int, reserve_y as int, share_supply as int);
    lemma_share_floor_is_greatest(shares_to_burn as int, reserve_x as int, share_supply as int);
    lemma_share_floor_is_greatest(shares_to_burn as int, reserve_y as int, share_supply as int);
}

/// For the same shares of the same pool, what a withdrawal pays is what a
/// deposit owes or one unit less, on either side.
pub proof fn lemma_withdraw_pays_at_most_what_deposit_owes(
    reserve_x: u64,
    reserve_y: u64,
    share_supply: u64,
    shares: u64,
)
    requires
        spec_proportional_deposit(reserve_x, reserve_y, share_supply, shares, 0, 0) is Ok,
        spec_proportional_withdraw(reserve_x, reserve_y, share_supply, shares) is Ok,
    ensures
        ({
            let owed = spec_proportional_deposit(reserve_x, reserve_y, share_supply, shares, 0, 0)->Ok_0;
            let paid = spec_proportional_withdraw(reserve_x, reserve_y, share_supply, shares)->Ok_0;
            &&& paid.x <= owed.x <= paid.x + 1
            &&& paid.y <= owed.y <= paid.y + 1
        }),
{
    lemma_share_floor_le_ceil(shares as int, reserve_x as int, share_supply as int);
    lemma_share_floor_le_ceil(shares as int, reserve_y as int, share_supply as int);
}

/// A withdrawal leaves a well-formed pool well formed: burning every share
/// empties both reserves, and burning fewer leaves something behind them.
pub proof fn lemma_withdraw_preserves_well_formed(
    before: Withdraw,
    amount: u64,
    min_x: u64,
    min_y: u64,
)
    requires
        before.pool.well_formed(),
        before.outcome(amount, min_x, min_y) is Ok,
    ensures
        before.settled(amount, before.outcome(amount, min_x, min_y)->Ok_0).pool.well_formed(),
{
    let supply = before.pool.share_supply as int;
    let rx = before.pool.reserve_x_balance as int;
    let ry = before.pool.reserve_y_balance as int;
    let got = before.outcome(amount, min_x, min_y)->Ok_0;
    lemma_share_floor_is_greatest(amount as int, rx, supply);
    lemma_share_floor_is_greatest(amount as int, ry, supply);
    if amount == supply {
        lemma_div_multiples_vanish(rx, supply);
        lemma_div_multiples_vanish(ry, supply);
    } else {
        if rx > 0 {
            assert(got.x < rx) by (nonlinear_arith)
                requires
                    0 <= amount < supply,
                    0 < rx,
                    got.x * supply <= amount * rx,
            ;
        } else {
            assert(got.y < ry) by (nonlinear_arith)
                requires
                    0 <= amount < supply,
                    0 < ry,
                    got.y * supply <= amount * ry,
            ;
        }
    }
}

/// A swap leaves a well-formed pool well formed.
pub proof fn lemma_swap_preserves_well_formed(before: Swap, is_x: bool, amount: u64, min: u64)
    requires
        before.pool.well_formed(),
        before.outcome(is_x, amount, min) is Ok,
    ensures
        ({
            let moved = before.outcome(is_x, amount, min)->Ok_0;
            before.settled(is_x, moved.deposit, moved.withdraw).pool.well_formed()
        }),
{
}

/// A deposit never thins out what backs a share: each reserve grows at least
/// in proportion to the share supply.
pub proof fn lemma_deposit_favors_pool(before: Deposit, amount: u64, max_x: u64, max_y: u64)
    requires
        before.pool.share_supply > 0,
        before.outcome(amount, max_x, max_y) is Ok,
    ensures
        ({
            let after = before.settled(amount, before.outcome(amount, max_x, max_y)->Ok_0);
            &&& after.pool.reserve_x_balance * before.pool.share_supply
                >= before.pool.reserve_x_balance * after.pool.share_supply
            &&& after.pool.reserve_y_balance * before.pool.share_supply
                >= before.pool.reserve_y_balance * after.pool.share_supply
        }),
{
    let supply = before.pool.share_supply as int;
    let rx = before.pool.reserve_x_balance as int;
    let ry = before.pool.reserve_y_balance as int;
    let paid = before.outcome(amount, max_x, max_y)->Ok_0;
    lemma_share_ceil_is_least(amount as int, rx, supply);
    lemma_share_ceil_is_least(amount as int, ry, supply);
    assert((rx + paid.x) * supply >= rx * (supply + amount)) by (nonlinear_arith)
        requires
            amount * rx <= paid.x * supply,
    ;
    assert((ry + paid.y) * supply >= ry * (supply + amount)) by (nonlinear_arith)
        requires
            amount * ry <= paid.y * supply,
    ;
}

/// A withdrawal never thins out what backs a share: each reserve shrinks at
/// most in proportion to the share supply.
pub proof fn lemma_withdraw_favors_pool(before: Withdraw, amount: u64, min_x: u64, min_y: u64)
    requires
        before.outcome(amount, min_x, min_y) is Ok,
    ensures
        ({
            let after = before.settled(amount, before.outcome(amount, min_x, min_y)->Ok_0);
            &&& after.pool.reserve_x_balance * before.pool.share_supply
                >= before.pool.reserve_x_balance * after.pool.share_supply
            &&& after.pool.reserve_y_balance * before.pool.share_supply
                >= before.pool.reserve_y_balance * after.pool.share_supply
        }),
{
    let supply = before.pool.share_supply as int;
    let rx = before.pool.reserve_x_balance as int;
    let ry = before.pool.reserve_y_balance as int;
    let got = before.outcome(amount, min_x, min_y)->Ok_0;
    lemma_share_floor_is_greatest(amount as int, rx, supply);
    lemma_share_floor_is_greatest(amount as int, ry, supply);
    assert((rx - got.x) * supply >= rx * (supply - amount)) by (nonlinear_arith)
        requires
            got.x * supply <= amount * rx,
    ;
    assert((ry - got.y) * supply >= ry * (supply - amount)) by (nonlinear_arith)
        requires
            got.y * supply <= amount * ry,
    ;
}

} // verus!
