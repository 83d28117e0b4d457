//! Swap: the caller pays one asset in and is paid the other out.

use vstd::prelude::*;
use crate::curve::{amount_in_net, net_of_fee, spec_swap_amount_out, swap_amount_out};
use crate::error::AmmError;
use crate::laws::lemma_swap_preserves_well_formed;
use crate::state::{
    can_pay_in, can_pay_out, can_transfer, paid_in, paid_out, transfer, Holdings, Pool,
};

verus! {

/// What a swap moved: the input paid into the pool, the output paid out of
/// it, and the part of the input that was kept as the fee.
#[derive(Clone, Copy, Debug, PartialEq, Eq, Structural)]
pub struct SwapResult {
    pub deposit: u64,
    pub withdraw: u64,
    pub fee: u64,
}

/// The balances that a swap reads and changes: the pool and the caller.
#[derive(Clone, Copy, Debug, PartialEq, Eq)]
pub struct Swap {
    pub pool: Pool,
    pub user: Holdings,
}

impl Swap {
    /// The reserve of the asset that is paid in.
    pub open spec fn reserve_in(&self, is_x: bool) -> u64 {
        if is_x {
            self.pool.reserve_x_balance
        } else {
            self.pool.reserve_y_balance
        }
    }

    /// The reserve of the asset that is paid out.
    pub open spec fn reserve_out(&self, is_x: bool) -> u64 {
        if is_x {
            self.pool.reserve_y_balance
        } else {
            self.pool.reserve_x_balance
        }
    }

    /// Whether the ledger can take `deposit` of the input asset from the
    /// caller and pay `withdraw` of the other asset out of custody.
    pub open spec fn can_settle(&self, is_x: bool, deposit: u64, withdraw: u64) -> bool {
        if is_x {
            &&& can_transfer(self.user.balance_x, self.pool.reserve_x_balance, deposit)
            &&& can_transfer(self.pool.reserve_y_balance, self.user.balance_y, withdraw)
        } else {
            &&& can_transfer(self.user.balance_y, self.pool.reserve_y_balance, deposit)
            &&& can_transfer(self.pool.reserve_x_balance, self.user.balance_x, withdraw)
        }
    }

    /// The balances once `deposit` has been paid in and `withdraw` paid out.
    /// The share supply and the caller's shares stay as they are.
    pub open spec fn settled(&self, is_x: bool, deposit: u64, withdraw: u64) -> Swap {
        if is_x {
            Swap {
                pool: Pool {
                    reserve_x_balance: (self.pool.reserve_x_balance + deposit) as u64,
                    reserve_y_balance: (self.pool.reserve_y_balance - withdraw) as u64,
                    ..self.pool
                },
                user: Holdings {
                    balance_x: (self.user.balance_x - deposit) as u64,
                    balance_y: (self.user.balance_y + withdraw) as u64,
                    ..self.user
                },
            }
        } else {
            Swap {
                pool: Pool {
                    reserve_x_balance: (self.pool.reserve_x_balance - withdraw) as u64,
                    reserve_y_balance: (self.pool.reserve_y_balance + deposit) as u64,
                    ..self.pool
                },
                user: Holdings {
                    balance_x: (self.user.balance_x + withdraw) as u64,
                    balance_y: (self.user.balance_y - deposit) as u64,
                    ..self.user
                },
            }
        }
    }

    /// What a swap of `amount` of asset X (`is_x`) or asset Y for at least
    /// `min` of the other answers: the amounts moved, or the first of the
    /// reasons to refuse it, in the order lock, liquidity, math, slippage,
    /// ledger.
    pub open spec fn outcome(&self, is_x: bool, amount: u64, min: u64) -> Result<
        SwapResult,
        AmmError,
    > {
        if self.pool.locked {
            Err(AmmError::PoolLocked)
        } else if self.pool.share_supply == 0 {
            Err(AmmError::NoLiquidity)
        } else {
            match spec_swap_amount_out(
                self.reserve_in(is_x),
                self.reserve_out(is_x),
                self.pool.fee_bps,
                amount,
            ) {
                Err(e) => Err(e),
                Ok(out) => if out < min {
                    Err(AmmError::SlippageExceeded)
                } else if !self.can_settle(is_x, amount, out) {
                    Err(AmmError::LedgerError)
                } else {
                    Ok(
                        SwapResult {
                            deposit: amount,
                            withdraw: out,
                            fee: (amount - net_of_fee(amount as int, self.pool.fee_bps as int)) as u64,
                        },
                    )
                },
            }
        }
    }

    /// Swaps `amount` of asset X (`is_x`) or asset Y for at least `min` of
    /// the other.
    ///
    /// On success the amounts moved are returned and both movements have
    /// taken place; on failure no balance has changed. The share supply is
    /// never changed.
    pub fn swap(&mut self, is_x: bool, amount: u64, min: u64) -> (r: Result<SwapResult, AmmError>)
        ensures
            r == old(self).outcome(is_x, amount, min),
            old(self).pool.locked ==> r == Err::<SwapResult, AmmError>(AmmError::PoolLocked),
            !old(self).pool.locked && old(self).pool.share_supply == 0 ==> r == Err::<
                SwapResult,
                AmmError,
            >(AmmError::NoLiquidity),
            r matches Ok(moved) ==> *final(self) == old(self).settled(
                is_x,
                moved.deposit,
                moved.withdraw,
            ),
            r is Err ==> *final(self) == *old(self),
            final(self).pool.share_supply == old(self).pool.share_supply,
            old(self).pool.well_formed() ==> final(self).pool.well_formed(),
    {
        proof {
            if self.pool.well_formed() && self.outcome(is_x, amount, min) is Ok {
                lemma_swap_preserves_well_formed(*self, is_x, amount, min);
            }
        }
        if self.pool.locked {
            return Err(AmmError::PoolLocked);
        }
        if self.pool.share_supply == 0 {
            return Err(AmmError::NoLiquidity);
        }
        let (reserve_in, reserve_out): (u64, u64) = if is_x {
            (self.pool.reserve_x_balance, self.pool.reserve_y_balance)
        } else {
            (self.pool.reserve_y_balance, self.pool.reserve_x_balance)
        };
        let out: u64 = match swap_amount_out(reserve_in, reserve_out, self.pool.fee_bps, amount) {
            Ok(out) => out,
            Err(e) => {
                return Err(e);
            },
        };
        if out < min {
            return Err(AmmError::SlippageExceeded);
        }
        let net: u64 = amount_in_net(amount, self.pool.fee_bps);
        let before: Swap = *self;
        match self.deposit_tokens(is_x, amount) {
            Ok(()) => {},
            Err(e) => {
                return Err(e);
            },
        }
        match self.withdraw_tokens(!is_x, out) {
            Ok(()) => {},
            Err(e) => {
                *self = before;
                return Err(e);
            },
        }
        Ok(SwapResult { deposit: amount, withdraw: out, fee: amount - net })
    }

    /// Moves `amount` of asset X (`is_x`) or asset Y from the caller into the
    /// pool's custody.
    pub fn deposit_tokens(&mut self, is_x: bool, amount: u64) -> (r: Result<(), AmmError>)
        ensures
            r == if can_pay_in(old(self).pool, old(self).user, is_x, amount) {
                Ok::<(), AmmError>(())
            } else {
                Err(AmmError::LedgerError)
            },
            r is Ok ==> (final(self).pool, final(self).user) == paid_in(
                old(self).pool,
                old(self).user,
                is_x,
                amount,
            ),
            r is Err ==> *final(self) == *old(self),
    {
        if is_x {
            transfer(&mut self.user.balance_x, &mut self.pool.reserve_x_balance, amount)
        } else {
            transfer(&mut self.user.balance_y, &mut self.pool.reserve_y_balance, amount)
        }
    }

    /// Moves `amount` of asset X (`is_x`) or asset Y out of the pool's
    /// custody to the caller.
    pub fn withdraw_tokens(&mut self, is_x: bool, amount: u64) -> (r: Result<(), AmmError>)
        ensures
            r == if can_pay_out(old(self).pool, old(self).user, is_x, amount) {
                Ok::<(), AmmError>(())
            } else {
                Err(AmmError::LedgerError)
            },
            r is Ok ==> (final(self).pool, final(self).user) == paid_out(
                old(self).pool,
                old(self).user,
                is_x,
                amount,
            ),
            r is Err ==> *final(self) == *old(self),
    {
        if is_x {
            transfer(&mut self.pool.reserve_x_balance, &mut self.user.balance_x, amount)
        } else {
            transfer(&mut self.pool.reserve_y_balance, &mut self.user.balance_y, amount)
        }
    }
}

} // verus!
