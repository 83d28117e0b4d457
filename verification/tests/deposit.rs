use amm_core::curve::XYAmounts;
use amm_core::error::AmmError;
use amm_core::instructions::deposit::Deposit;
use amm_core::state::{Holdings, Pool};

fn pool(reserve_x: u64, reserve_y: u64, supply: u64) -> Pool {
    Pool {
        reserve_x_balance: reserve_x,
        reserve_y_balance: reserve_y,
        share_supply: supply,
        fee_bps: 30,
        authority: None,
        locked: false,
    }
}

fn user(balance_x: u64, balance_y: u64, shares: u64) -> Holdings {
    Holdings { balance_x, balance_y, shares }
}

#[test]
fn deposit_into_virgin_pool_pays_the_bounds_exactly() {
    for &shares in [0u64, 1, 500, 1_000_000, u64::MAX].iter() {
        let mut ctx = Deposit { pool: pool(0, 0, 0), user: user(5000, 5000, 0) };
        assert_eq!(ctx.deposit(shares, 1000, 2000), Ok(XYAmounts { x: 1000, y: 2000 }));
        assert_eq!(ctx.pool, pool(1000, 2000, shares));
        assert_eq!(ctx.user, user(4000, 3000, shares));
    }
}

#[test]
fn deposit_moves_both_assets_and_issues_shares() {
    let mut ctx = Deposit { pool: pool(1000, 3000, 700), user: user(100, 200, 4) };
    assert_eq!(ctx.deposit(33, 50, 150), Ok(XYAmounts { x: 48, y: 142 }));
    assert_eq!(ctx.pool, pool(1048, 3142, 733));
    assert_eq!(ctx.user, user(52, 58, 37));
}

#[test]
fn deposit_keeps_fee_authority_and_lock() {
    let before = Pool {
        reserve_x_balance: 1000,
        reserve_y_balance: 3000,
        share_supply: 700,
        fee_bps: 123,
        authority: Some([9u8; 32]),
        locked: false,
    };
    let mut ctx = Deposit { pool: before, user: user(100, 200, 0) };
    assert_eq!(ctx.deposit(33, 48, 142), Ok(XYAmounts { x: 48, y: 142 }));
    assert_eq!(ctx.pool.fee_bps, 123);
    assert_eq!(ctx.pool.authority, Some([9u8; 32]));
    assert!(!ctx.pool.locked);
}

#[test]
fn deposit_bounded_by_the_exact_amounts_succeeds() {
    let mut ctx = Deposit { pool: pool(1000, 3000, 700), user: user(100, 200, 0) };
    assert_eq!(ctx.deposit(33, 48, 142), Ok(XYAmounts { x: 48, y: 142 }));
}

#[test]
fn deposit_bounded_one_unit_lower_exceeds_slippage() {
    let before = Deposit { pool: pool(1000, 3000, 700), user: user(100, 200, 0) };
    let mut ctx = before;
    assert_eq!(ctx.deposit(33, 47, 142), Err(AmmError::SlippageExceeded));
    assert_eq!(ctx, before);
    assert_eq!(ctx.deposit(33, 48, 141), Err(AmmError::SlippageExceeded));
    assert_eq!(ctx, before);
    assert_eq!(ctx.deposit(33, 0, 0), Err(AmmError::SlippageExceeded));
    assert_eq!(ctx, before);
}

#[test]
fn deposit_into_locked_pool_is_refused_and_changes_nothing() {
    let mut locked = pool(1000, 3000, 700);
    locked.locked = true;
    let before = Deposit { pool: locked, user: user(100, 200, 0) };
    let mut ctx = before;
    assert_eq!(ctx.deposit(33, 48, 142), Err(AmmError::PoolLocked));
    assert_eq!(ctx, before);
    // the lock is reported before anything else that is wrong
    assert_eq!(ctx.deposit(33, 0, 0), Err(AmmError::PoolLocked));
    let mut virgin = pool(0, 0, 0);
    virgin.locked = true;
    let mut ctx = Deposit { pool: virgin, user: user(5000, 5000, 0) };
    assert_eq!(ctx.deposit(10, 1000, 2000), Err(AmmError::PoolLocked));
    assert_eq!(ctx.pool, virgin);
}

#[test]
fn deposit_into_inconsistent_pool_is_a_math_error() {
    let before = Deposit { pool: pool(0, 3000, 700), user: user(100, 200, 0) };
    let mut ctx = before;
    assert_eq!(ctx.deposit(33, 48, 142), Err(AmmError::MathError));
    assert_eq!(ctx, before);
}

#[test]
fn deposit_too_large_for_the_arithmetic_is_a_math_error() {
    let before = Deposit { pool: pool(u64::MAX, 1, 1), user: user(u64::MAX, u64::MAX, 0) };
    let mut ctx = before;
    assert_eq!(ctx.deposit(2, u64::MAX, u64::MAX), Err(AmmError::MathError));
    assert_eq!(ctx, before);
}

#[test]
fn deposit_the_caller_cannot_pay_is_a_ledger_error() {
    let before = Deposit { pool: pool(1000, 3000, 700), user: user(47, 200, 0) };
    let mut ctx = before;
    assert_eq!(ctx.deposit(33, 48, 142), Err(AmmError::LedgerError));
    assert_eq!(ctx, before);
}

#[test]
fn deposit_failing_on_the_second_asset_undoes_the_first() {
    let before = Deposit { pool: pool(1000, 3000, 700), user: user(100, 141, 0) };
    let mut ctx = before;
    assert_eq!(ctx.deposit(33, 48, 142), Err(AmmError::LedgerError));
    assert_eq!(ctx, before);
}

#[test]
fn deposit_failing_to_issue_shares_undoes_both_payments() {
    let before = Deposit { pool: pool(1000, 3000, u64::MAX - 10), user: user(100, 200, 0) };
    let mut ctx = before;
    // eleven shares would take the supply past 64 bits
    assert_eq!(ctx.deposit(11, 100, 200), Err(AmmError::LedgerError));
    assert_eq!(ctx, before);
    let before = Deposit { pool: pool(1000, 3000, 700), user: user(100, 200, u64::MAX) };
    let mut ctx = before;
    assert_eq!(ctx.deposit(1, 100, 200), Err(AmmError::LedgerError));
    assert_eq!(ctx, before);
}

#[test]
fn deposit_that_would_overflow_custody_is_a_ledger_error() {
    let before = Deposit { pool: pool(u64::MAX - 5, 10, 0), user: user(100, 200, 0) };
    let mut ctx = before;
    assert_eq!(ctx.deposit(10, 6, 1), Err(AmmError::LedgerError));
    assert_eq!(ctx, before);
}

#[test]
fn slippage_is_reported_before_the_ledger() {
    let before = Deposit { pool: pool(1000, 3000, 700), user: user(0, 0, 0) };
    let mut ctx = before;
    assert_eq!(ctx.deposit(33, 47, 142), Err(AmmError::SlippageExceeded));
    assert_eq!(ctx.deposit(33, 48, 142), Err(AmmError::LedgerError));
    assert_eq!(ctx, before);
}

#[test]
fn deposit_tokens_moves_one_asset_into_custody() {
    let mut ctx = Deposit { pool: pool(1000, 3000, 700), user: user(100, 200, 5) };
    assert_eq!(ctx.deposit_tokens(true, 30), Ok(()));
    assert_eq!(ctx.pool, pool(1030, 3000, 700));
    assert_eq!(ctx.user, user(70, 200, 5));
    assert_eq!(ctx.deposit_tokens(false, 200), Ok(()));
    assert_eq!(ctx.pool, pool(1030, 3200, 700));
    assert_eq!(ctx.user, user(70, 0, 5));
    assert_eq!(ctx.deposit_tokens(false, 1), Err(AmmError::LedgerError));
    assert_eq!(ctx.deposit_tokens(true, 71), Err(AmmError::LedgerError));
    assert_eq!(ctx.pool, pool(1030, 3200, 700));
    assert_eq!(ctx.user, user(70, 0, 5));
}

#[test]
fn mint_lp_tokens_issues_shares_to_the_caller() {
    let mut ctx = Deposit { pool: pool(1000, 3000, 700), user: user(100, 200, 5) };
    assert_eq!(ctx.mint_lp_tokens(20), Ok(()));
    assert_eq!(ctx.pool, pool(1000, 3000, 720));
    assert_eq!(ctx.user, user(100, 200, 25));
    assert_eq!(ctx.mint_lp_tokens(u64::MAX), Err(AmmError::LedgerError));
    assert_eq!(ctx.pool, pool(1000, 3000, 720));
    assert_eq!(ctx.user, user(100, 200, 25));
}

#[test]
fn deposit_through_the_entry_point() {
    let mut ctx = Deposit { pool: pool(1000, 3000, 700), user: user(100, 200, 4) };
    assert_eq!(amm_core::deposit(&mut ctx, 33, 50, 150), Ok(XYAmounts { x: 48, y: 142 }));
    assert_eq!(ctx.pool, pool(1048, 3142, 733));
    assert_eq!(ctx.user, user(52, 58, 37));
    assert_eq!(amm_core::deposit(&mut ctx, 33, 0, 0), Err(AmmError::SlippageExceeded));
}
