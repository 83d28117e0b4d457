//! The pool's record and the caller's side of the ledger, with the three
//! movements that the ledger offers.

use vstd::prelude::*;
use crate::curve::BPS_DENOMINATOR;
use crate::error::AmmError;

verus! {

/// One market: two reserves, the shares issued against them, and the
/// settings that its creator fixed.
#[derive(Clone, Copy, Debug, PartialEq, Eq)]
pub struct Pool {
    /// Units of asset X in the pool's custody.
    pub reserve_x_balance: u64,
    /// Units of asset Y in the pool's custody.
    pub reserve_y_balance: u64,
    /// Pool shares outstanding; zero while the pool has never held liquidity.
    pub share_supply: u64,
    /// Swap fee in basis points, fixed when the pool is created.
    pub fee_bps: u16,
    /// Who may lock and unlock the pool, if anybody.
    pub authority: Option<[u8; 32]>,
    /// While set, every deposit, withdrawal and swap is rejected.
    pub locked: bool,
}

/// What one participant holds of the two assets and of the pool's shares.
#[derive(Clone, Copy, Debug, PartialEq, Eq)]
pub struct Holdings {
    pub balance_x: u64,
    pub balance_y: u64,
    pub shares: u64,
}

impl Pool {
    /// The fee is less than the whole, and the pool either has no shares and
    /// no reserves or has shares and something to back them.
    pub open spec fn well_formed(&self) -> bool {
        &&& self.fee_bps < BPS_DENOMINATOR
        &&& (self.reserve_x_balance == 0 && self.reserve_y_balance == 0 <==> self.share_supply
            == 0)
    }

    /// The product of the two reserves, which swaps are priced by.
    pub open spec fn product(&self) -> int {
        self.reserve_x_balance * self.reserve_y_balance
    }

    /// Whether the record has the same settings as `other`: fee, authority
    /// and lock.
    pub open spec fn same_settings(&self, other: Pool) -> bool {
        &&& self.fee_bps == other.fee_bps
        &&& self.authority == other.authority
        &&& self.locked == other.locked
    }

    /// Tells whether the record is well formed.
    pub fn is_well_formed(&self) -> (r: bool)
        ensures
            r == self.well_formed(),
    {
        let empty: bool = self.reserve_x_balance == 0 && self.reserve_y_balance == 0;
        self.fee_bps < BPS_DENOMINATOR && empty == (self.share_supply == 0)
    }
}

/// Whether `amount` can leave a balance of `from` and join a balance of `to`.
pub open spec fn can_transfer(from: u64, to: u64, amount: u64) -> bool {
    amount <= from && to + amount <= u64::MAX
}

/// Whether `amount` new shares can be added to the supply and to a holder.
pub open spec fn can_mint(supply: u64, holder: u64, amount: u64) -> bool {
    supply + amount <= u64::MAX && holder + amount <= u64::MAX
}

/// Whether `amount` shares can be taken from a holder and from the supply.
pub open spec fn can_burn(supply: u64, holder: u64, amount: u64) -> bool {
    amount <= holder && amount <= supply
}

/// Whether `amount` of asset X (`is_x`) or asset Y can move from the caller
/// into the pool's custody.
pub open spec fn can_pay_in(pool: Pool, user: Holdings, is_x: bool, amount: u64) -> bool {
    if is_x {
        can_transfer(user.balance_x, pool.reserve_x_balance, amount)
    } else {
        can_transfer(user.balance_y, pool.reserve_y_balance, amount)
    }
}

/// The pool and the caller once `amount` of one asset has moved from the
/// caller into custody.
pub open spec fn paid_in(pool: Pool, user: Holdings, is_x: bool, amount: u64) -> (Pool, Holdings) {
    if is_x {
        (
            Pool { reserve_x_balance: (pool.reserve_x_balance + amount) as u64, ..pool },
            Holdings { balance_x: (user.balance_x - amount) as u64, ..user },
        )
    } else {
        (
            Pool { reserve_y_balance: (pool.reserve_y_balance + amount) as u64, ..pool },
            Holdings { balance_y: (user.balance_y - amount) as u64, ..user },
        )
    }
}

/// Whether `amount` of asset X (`is_x`) or asset Y can move out of the
/// pool's custody to the caller.
pub open spec fn can_pay_out(pool: Pool, user: Holdings, is_x: bool, amount: u64) -> bool {
    if is_x {
        can_transfer(pool.reserve_x_balance, user.balance_x, amount)
    } else {
        can_transfer(pool.reserve_y_balance, user.balance_y, amount)
    }
}

/// The pool and the caller once `amount` of one asset has moved out of
/// custody to the caller.
pub open spec fn paid_out(pool: Pool, user: Holdings, is_x: bool, amount: u64) -> (
    Pool,
    Holdings,
) {
    if is_x {
        (
            Pool { reserve_x_balance: (pool.reserve_x_balance - amount) as u64, ..pool },
            Holdings { balance_x: (user.balance_x + amount) as u64, ..user },
        )
    } else {
        (
            Pool { reserve_y_balance: (pool.reserve_y_balance - amount) as u64, ..pool },
            Holdings { balance_y: (user.balance_y + amount) as u64, ..user },
        )
    }
}

/// The pool and the caller once `amount` shares have been issued.
pub open spec fn minted(pool: Pool, user: Holdings, amount: u64) -> (Pool, Holdings) {
    (
        Pool { share_supply: (pool.share_supply + amount) as u64, ..pool },
        Holdings { shares: (user.shares + amount) as u64, ..user },
    )
}

/// The pool and the caller once `amount` shares have been destroyed.
pub open spec fn burnt(pool: Pool, user: Holdings, amount: u64) -> (Pool, Holdings) {
    (
        Pool { share_supply: (pool.share_supply - amount) as u64, ..pool },
        Holdings { shares: (user.shares - amount) as u64, ..user },
    )
}

/// Moves `amount` from one balance to another, or changes neither.
pub fn transfer(from: &mut u64, to: &mut u64, amount: u64) -> (r: Result<(), AmmError>)
    ensures
        r == if can_transfer(*old(from), *old(to), amount) {
            Ok::<(), AmmError>(())
        } else {
            Err(AmmError::LedgerError)
        },
        r is Ok ==> *final(from) == *old(from) - amount && *final(to) == *old(to) + amount,
        r is Err ==> *final(from) == *old(from) && *final(to) == *old(to),
{
    if amount > *from || amount > u64::MAX - *to {
        return Err(AmmError::LedgerError);
    }
    *from = *from - amount;
    *to = *to + amount;
    Ok(())
}

/// Issues `amount` new shares to a holder, or changes nothing.
pub fn mint_to(supply: &mut u64, holder: &mut u64, amount: u64) -> (r: Result<(), AmmError>)
    ensures
        r == if can_mint(*old(supply), *old(holder), amount) {
            Ok::<(), AmmError>(())
        } else {
            Err(AmmError::LedgerError)
        },
        r is Ok ==> *final(supply) == *old(supply) + amount && *final(holder) == *old(holder)
            + amount,
        r is Err ==> *final(supply) == *old(supply) && *final(holder) == *old(holder),
{
    if amount > u64::MAX - *supply || amount > u64::MAX - *holder {
        return Err(AmmError::LedgerError);
    }
    *supply = *supply + amount;
    *holder = *holder + amount;
    Ok(())
}

/// Destroys `amount` of a holder's shares, or changes nothing.
pub fn burn(supply: &mut u64, holder: &mut u64, amount: u64) -> (r: Result<(), AmmError>)
    ensures
        r == if can_burn(*old(supply), *old(holder), amount) {
            Ok::<(), AmmError>(())
        } else {
            Err(AmmError::LedgerError)
        },
        r is Ok ==> *final(supply) == *old(supply) - amount && *final(holder) == *old(holder)
            - amount,
        r is Err ==> *final(supply) == *old(supply) && *final(holder) == *old(holder),
{
    if amount > *holder || amount > *supply {
        return Err(AmmError::LedgerError);
    }
    *supply = *supply - amount;
    *holder = *holder - amount;
    Ok(())
}

} // verus!
