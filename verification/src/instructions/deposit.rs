//! Deposit: the caller pays both assets into the pool and is issued shares.

use vstd::prelude::*;
use crate::curve::{proportional_deposit, spec_proportional_deposit, XYAmounts};
use crate::error::AmmError;
use crate::laws::lemma_deposit_preserves_well_formed;
use crate::state::{
    can_mint, can_pay_in, can_transfer, mint_to, minted, paid_in, transfer, Holdings, Pool,
};

verus! {

/// The balances that a deposit reads and changes: the pool and the caller.
#[derive(Clone, Copy, Debug, PartialEq, Eq)]
pub struct Deposit {
    pub pool: Pool,
    pub user: Holdings,
}

impl Deposit {
    /// Whether the ledger can take `amounts` from the caller into custody and
    /// issue `shares` to the caller.
    pub open spec fn can_settle(&self, shares: u64, amounts: XYAmounts) -> bool {
        &&& can_transfer(self.user.balance_x, self.pool.reserve_x_balance, amounts.x)
        &&& can_transfer(self.user.balance_y, self.pool.reserve_y_balance, amounts.y)
        &&& can_mint(self.pool.share_supply, self.user.shares, shares)
    }

    /// The balances once `amounts` have been paid in and `shares` issued.
    pub open spec fn settled(&self, shares: u64, amounts: XYAmounts) -> Deposit {
        Deposit {
            pool: Pool {
                reserve_x_balance: (self.pool.reserve_x_balance + amounts.x) as u64,
                reserve_y_balance: (self.pool.reserve_y_balance + amounts.y) as u64,
                share_supply: (self.pool.share_supply + shares) as u64,
                ..self.pool
            },
            user: Holdings {
                balance_x: (self.user.balance_x - amounts.x) as u64,
                balance_y: (self.user.balance_y - amounts.y) as u64,
                shares: (self.user.shares + shares) as u64,
            },
        }
    }

    /// What a deposit of `amount` shares, bounded by `max_x` and `max_y`,
    /// answers: the amounts paid, or the first of the reasons to refuse it,
    /// in the order lock, math, slippage, ledger.
    pub open spec fn outcome(&self, amount: u64, max_x: u64, max_y: u64) -> Result<
        XYAmounts,
        AmmError,
    > {
        if self.pool.locked {
            Err(AmmError::PoolLocked)
        } else {
            match spec_proportional_deposit(
                self.pool.reserve_x_balance,
                self.pool.reserve_y_balance,
                self.pool.share_supply,
                amount,
                max_x,
                max_y,
            ) {
                Err(e) => Err(e),
                Ok(amounts) => if amounts.x > max_x || amounts.y > max_y {
                    Err(AmmError::SlippageExceeded)
                } else if !self.can_settle(amount, amounts) {
                    Err(AmmError::LedgerError)
                } else {
                    Ok(amounts)
                },
            }
        }
    }

    /// Deposits for `amount` shares, paying at most `max_x` and `max_y`.
    ///
    /// On success the amounts paid are returned and all three movements have
    /// taken place; on failure no balance has changed.
    pub fn deposit(&mut self, amount: u64, max_x: u64, max_y: u64) -> (r: Result<
        XYAmounts,
        AmmError,
    >)
        ensures
            r == old(self).outcome(amount, max_x, max_y),
            old(self).pool.locked ==> r == Err::<XYAmounts, AmmError>(AmmError::PoolLocked),
            r matches Ok(amounts) ==> *final(self) == old(self).settled(amount, amounts),
            r is Err ==> *final(self) == *old(self),
            old(self).pool.well_formed() && (r is Ok && old(self).pool.share_supply == 0 ==> (amount
                == 0 <==> max_x == 0 && max_y == 0)) ==> final(self).pool.well_formed(),
    {
        proof {
            if self.pool.well_formed() && self.outcome(amount, max_x, max_y) is Ok && (
            self.pool.share_supply == 0 ==> (amount == 0 <==> max_x == 0 && max_y == 0)) {
                lemma_deposit_preserves_well_formed(*self, amount, max_x, max_y);
            }
        }
        if self.pool.locked {
            return Err(AmmError::PoolLocked);
        }
        let amounts: XYAmounts = match proportional_deposit(
            self.pool.reserve_x_balance,
            self.pool.reserve_y_balance,
            self.pool.share_supply,
            amount,
            max_x,
            max_y,
        ) {
            Ok(amounts) => amounts,
            Err(e) => {
                return Err(e);
            },
        };
        if amounts.x > max_x || amounts.y > max_y {
            return Err(AmmError::SlippageExceeded);
        }
        let before: Deposit = *self;
        match self.deposit_tokens(true, amounts.x) {
            Ok(()) => {},
            Err(e) => {
                return Err(e);
            },
        }
        match self.deposit_tokens(false, amounts.y) {
            Ok(()) => {},
            Err(e) => {
                *self = before;
                return Err(e);
            },
        }
        match self.mint_lp_tokens(amount) {
            Ok(()) => {},
            Err(e) => {
                *self = before;
                return Err(e);
            },
        }
        Ok(amounts)
    }

    /// Moves `amount` of asset X (`is_x`) or asset Y from the caller into the
    /// pool's custody.
    pub fn deposit_tokens(&mut self, is_x: bool, amount: u64) -> (r: Result<(), AmmError>)
        ensures
            r == if can_pay_in(old(self).pool, old(self).user, is_x, amount) {
                Ok::<(), AmmError>(())
            } else {
                Err(AmmError::LedgerError)
            },
            r is Ok ==> (final(self).pool, final(self).user) == paid_in(
                old(self).pool,
                old(self).user,
                is_x,
                amount,
            ),
            r is Err ==> *final(self) == *old(self),
    {
        if is_x {
            transfer(&mut self.user.balance_x, &mut self.pool.reserve_x_balance, amount)
        } else {
            transfer(&mut self.user.balance_y, &mut self.pool.reserve_y_balance, amount)
        }
    }

    /// Issues `amount` new pool shares to the caller.
    pub fn mint_lp_tokens(&mut self, amount: u64) -> (r: Result<(), AmmError>)
        ensures
            r == if can_mint(old(self).pool.share_supply, old(self).user.shares, amount) {
                Ok::<(), AmmError>(())
            } else {
                Err(AmmError::LedgerError)
            },
            r is Ok ==> (final(self).pool, final(self).user) == minted(
                old(self).pool,
                old(self).user,
                amount,
            ),
            r is Err ==> *final(self) == *old(self),
    {
        mint_to(&mut self.pool.share_supply, &mut self.user.shares, amount)
    }
}

} // verus!
