//! Withdraw: the caller's shares are burnt and both assets are paid out.

use vstd::prelude::*;
use crate::curve::{proportional_withdraw, spec_proportional_withdraw, XYAmounts};
use crate::error::AmmError;
use crate::laws::lemma_withdraw_preserves_well_formed;
use crate::state::{
    burn, burnt, can_burn, can_pay_out, can_transfer, paid_out, transfer, Holdings, Pool,
};

verus! {

/// The balances that a withdrawal reads and changes: the pool and the caller.
#[derive(Clone, Copy, Debug, PartialEq, Eq)]
pub struct Withdraw {
    pub pool: Pool,
    pub user: Holdings,
}

impl Withdraw {
    /// Whether the ledger can pay `amounts` out of custody to the caller and
    /// take `shares` from the caller.
    pub open spec fn can_settle(&self, shares: u64, amounts: XYAmounts) -> bool {
        &&& can_transfer(self.pool.reserve_x_balance, self.user.balance_x, amounts.x)
        &&& can_transfer(self.pool.reserve_y_balance, self.user.balance_y, amounts.y)
        &&& can_burn(self.pool.share_supply, self.user.shares, shares)
    }

    /// The balances once `amounts` have been paid out and `shares` burnt.
    pub open spec fn settled(&self, shares: u64, amounts: XYAmounts) -> Withdraw {
        Withdraw {
            pool: Pool {
                reserve_x_balance: (self.pool.reserve_x_balance - amounts.x) as u64,
                reserve_y_balance: (self.pool.reserve_y_balance - amounts.y) as u64,
                share_supply: (self.pool.share_supply - shares) as u64,
                ..self.pool
            },
            user: Holdings {
                balance_x: (self.user.balance_x + amounts.x) as u64,
                balance_y: (self.user.balance_y + amounts.y) as u64,
                shares: (self.user.shares - shares) as u64,
            },
        }
    }

    /// What a withdrawal of `amount` shares, bounded below by `min_x` and
    /// `min_y`, answers: the amounts received, or the first of the reasons to
    /// refuse it, in the order lock, liquidity, math, slippage, ledger.
    pub open spec fn outcome(&self, amount: u64, min_x: u64, min_y: u64) -> Result<
        XYAmounts,
        AmmError,
    > {
        if self.pool.locked {
            Err(AmmError::PoolLocked)
        } else {
            match spec_proportional_withdraw(
                self.pool.reserve_x_balance,
                self.pool.reserve_y_balance,
                self.pool.share_supply,
                amount,
            ) {
                Err(e) => Err(e),
                Ok(amounts) => if amounts.x < min_x || amounts.y < min_y {
                    Err(AmmError::SlippageExceeded)
                } else if !self.can_settle(amount, amounts) {
                    Err(AmmError::LedgerError)
                } else {
                    Ok(amounts)
                },
            }
        }
    }

    /// Burns `amount` shares for at least `min_x` and `min_y`.
    ///
    /// On success the amounts received are returned and all three movements
    /// have taken place; on failure no balance has changed.
    pub fn withdraw(&mut self, amount: u64, min_x: u64, min_y: u64) -> (r: Result<
        XYAmounts,
        AmmError,
    >)
        ensures
            r == old(self).outcome(amount, min_x, min_y),
            old(self).pool.locked ==> r == Err::<XYAmounts, AmmError>(AmmError::PoolLocked),
            !old(self).pool.locked && old(self).pool.share_supply == 0 ==> r == Err::<
                XYAmounts,
                AmmError,
            >(AmmError::NoLiquidity),
            r matches Ok(amounts) ==> *final(self) == old(self).settled(amount, amounts),
            r is Err ==> *final(self) == *old(self),
            old(self).pool.well_formed() ==> final(self).pool.well_formed(),
    {
        proof {
            if self.pool.well_formed() && self.outcome(amount, min_x, min_y) is Ok {
                lemma_withdraw_preserves_well_formed(*self, amount, min_x, min_y);
            }
        }
        if self.pool.locked {
            return Err(AmmError::PoolLocked);
        }
        if self.pool.share_supply == 0 {
            return Err(AmmError::NoLiquidity);
        }
        let amounts: XYAmounts = match proportional_withdraw(
            self.pool.reserve_x_balance,
            self.pool.reserve_y_balance,
            self.pool.share_supply,
            amount,
        ) {
            Ok(amounts) => amounts,
            Err(e) => {
                return Err(e);
            },
        };
        if amounts.x < min_x || amounts.y < min_y {
            return Err(AmmError::SlippageExceeded);
        }
        let before: Withdraw = *self;
        match self.withdraw_tokens(true, amounts.x) {
            Ok(()) => {},
            Err(e) => {
                return Err(e);
            },
        }
        match self.withdraw_tokens(false, amounts.y) {
            Ok(()) => {},
            Err(e) => {
                *self = before;
                return Err(e);
            },
        }
        match self.burn_lp_tokens(amount) {
            Ok(()) => {},
            Err(e) => {
                *self = before;
                return Err(e);
            },
        }
        Ok(amounts)
    }

    /// Moves `amount` of asset X (`is_x`) or asset Y out of the pool's
    /// custody to the caller.
    pub fn withdraw_tokens(&mut self, is_x: bool, amount: u64) -> (r: Result<(), AmmError>)
        ensures
            r == if can_pay_out(old(self).pool, old(self).user, is_x, amount) {
                Ok::<(), AmmError>(())
            } else {
                Err(AmmError::LedgerError)
            },
            r is Ok ==> (final(self).pool, final(self).user) == paid_out(
                old(self).pool,
                old(self).user,
                is_x,
                amount,
            ),
            r is Err ==> *final(self) == *old(self),
    {
        if is_x {
            transfer(&mut self.pool.reserve_x_balance, &mut self.user.balance_x, amount)
        } else {
            transfer(&mut self.pool.reserve_y_balance, &mut self.user.balance_y, amount)
        }
    }

    /// Destroys `amount` of the caller's pool shares.
    pub fn burn_lp_tokens(&mut self, amount: u64) -> (r: Result<(), AmmError>)
        ensures
            r == if can_burn(old(self).pool.share_supply, old(self).user.shares, amount) {
                Ok::<(), AmmError>(())
            } else {
                Err(AmmError::LedgerError)
            },
            r is Ok ==> (final(self).pool, final(self).user) == burnt(
                old(self).pool,
                old(self).user,
                amount,
            ),
            r is Err ==> *final(self) == *old(self),
    {
        burn(&mut self.pool.share_supply, &mut self.user.shares, amount)
    }
}

} // verus!
