use vstd::prelude::*;

verus! {

/// The ways in which a request against a pool can fail.
#[derive(Clone, Copy, Debug, PartialEq, Eq, Structural)]
pub enum AmmError {
    /// The pool is administratively locked.
    PoolLocked,
    /// A swap or withdrawal met a pool that holds no liquidity.
    NoLiquidity,
    /// The computed amounts violate the bound that the caller set.
    SlippageExceeded,
    /// Overflow or undefined arithmetic in the invariant math.
    MathError,
    /// The ledger cannot carry out a movement: a balance is too small to be
    /// debited or too large to be credited.
    LedgerError,
}

} // verus!
