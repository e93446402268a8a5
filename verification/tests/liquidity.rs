use new_dex::history::{apply, Movement};
use new_dex::{
    add_liquidity, initialize, remove_liquidity, AddLiquidity, Address, ErrorCode, InitializePool,
    LPInfo, Pool, RemoveLiquidity,
};

fn key(tag: u8) -> Address {
    Address { bytes: [tag; 32] }
}

fn pool_with(sol_amount: u64, token_amount: u64) -> Pool {
    Pool {
        authority: key(1),
        bump: 254,
        token_mint: key(2),
        sol_vault: key(3),
        token_vault: key(4),
        sol_amount,
        token_amount,
    }
}

fn position(sol_amount: u64, token_amount: u64) -> LPInfo {
    LPInfo { owner: key(9), sol_amount, token_amount, bump: 0 }
}

fn deposit_ctx(pool: Option<Pool>, lp_info: Option<LPInfo>) -> AddLiquidity {
    AddLiquidity {
        pool,
        lp: key(9),
        lp_lamports: 10_000,
        user_token_amount: 20_000,
        sol_vault_lamports: pool.map_or(0, |p| p.sol_amount),
        token_vault_amount: pool.map_or(0, |p| p.token_amount),
        lp_info,
    }
}

fn withdrawal_ctx(pool: Option<Pool>, lp_info: Option<LPInfo>) -> RemoveLiquidity {
    RemoveLiquidity {
        pool,
        lp: key(9),
        sol_vault_lamports: pool.map_or(0, |p| p.sol_amount),
        token_vault_amount: pool.map_or(0, |p| p.token_amount),
        lp_info,
    }
}

#[test]
fn initialize_creates_an_empty_pool() {
    let mut ctx = InitializePool {
        pool: None,
        pool_bump: 254,
        token_mint: key(2),
        token_vault: key(4),
        sol_vault: key(3),
        authority: key(1),
    };
    assert_eq!(initialize(&mut ctx), Ok(()));
    assert_eq!(ctx.pool, Some(pool_with(0, 0)));
    assert_eq!(ctx.pool.unwrap().current_balances(), (0u128, 0u128));
    assert_eq!(ctx.authority, key(1));
}

#[test]
fn initialize_twice_is_refused() {
    let mut ctx = InitializePool {
        pool: Some(pool_with(7, 8)),
        pool_bump: 1,
        token_mint: key(5),
        token_vault: key(6),
        sol_vault: key(7),
        authority: key(8),
    };
    let before = ctx;
    assert_eq!(initialize(&mut ctx), Err(ErrorCode::PoolAlreadyInitialized));
    assert_eq!(ctx, before);
}

#[test]
fn current_balances_widens_both_totals() {
    let pool = pool_with(u64::MAX, 3);
    assert_eq!(pool.current_balances(), (u64::MAX as u128, 3u128));
}

#[test]
fn first_deposit_creates_the_position() {
    let mut ctx = deposit_ctx(Some(pool_with(0, 0)), None);
    assert_eq!(add_liquidity(&mut ctx, 1000, 2000), Ok(()));
    assert_eq!(ctx.pool, Some(pool_with(1000, 2000)));
    assert_eq!(ctx.lp_info, Some(position(1000, 2000)));
    assert_eq!(ctx.lp_lamports, 9_000);
    assert_eq!(ctx.user_token_amount, 18_000);
    assert_eq!(ctx.sol_vault_lamports, 1000);
    assert_eq!(ctx.token_vault_amount, 2000);
}

#[test]
fn deposit_accepts_any_ratio() {
    let mut ctx = deposit_ctx(Some(pool_with(1000, 2000)), Some(position(1000, 2000)));
    assert_eq!(add_liquidity(&mut ctx, 0, 5), Ok(()));
    assert_eq!(ctx.pool, Some(pool_with(1000, 2005)));
    assert_eq!(ctx.lp_info, Some(position(1000, 2005)));
    assert_eq!(add_liquidity(&mut ctx, 7, 0), Ok(()));
    assert_eq!(ctx.pool, Some(pool_with(1007, 2005)));
    assert_eq!(ctx.lp_info, Some(position(1007, 2005)));
}

#[test]
fn deposit_without_a_pool_is_refused() {
    let mut ctx = deposit_ctx(None, None);
    let before = ctx;
    assert_eq!(add_liquidity(&mut ctx, 1, 1), Err(ErrorCode::PoolNotFound));
    assert_eq!(ctx, before);
}

#[test]
fn deposit_beyond_the_providers_funds_is_refused() {
    let mut ctx = deposit_ctx(Some(pool_with(0, 0)), None);
    let before = ctx;
    assert_eq!(add_liquidity(&mut ctx, 10_001, 1), Err(ErrorCode::InsufficientTraderBalance));
    assert_eq!(ctx, before);
    assert_eq!(add_liquidity(&mut ctx, 1, 20_001), Err(ErrorCode::InsufficientTraderBalance));
    assert_eq!(ctx, before);
    assert_eq!(ctx.lp_info, None);
}

#[test]
fn deposit_that_overflows_a_pool_total_is_refused() {
    let mut ctx = deposit_ctx(Some(pool_with(u64::MAX - 5, 0)), None);
    ctx.sol_vault_lamports = 0;
    let before = ctx;
    assert_eq!(add_liquidity(&mut ctx, 6, 0), Err(ErrorCode::Overflow));
    assert_eq!(ctx, before);
    assert_eq!(add_liquidity(&mut ctx, 5, 0), Ok(()));
    assert_eq!(ctx.pool.unwrap().sol_amount, u64::MAX);
}

#[test]
fn deposit_that_overflows_the_position_is_refused() {
    let mut ctx = deposit_ctx(Some(pool_with(0, 0)), Some(position(0, u64::MAX)));
    let before = ctx;
    assert_eq!(add_liquidity(&mut ctx, 0, 1), Err(ErrorCode::Overflow));
    assert_eq!(ctx, before);
}

#[test]
fn deposit_that_overflows_a_vault_is_refused() {
    let mut ctx = deposit_ctx(Some(pool_with(0, 0)), None);
    ctx.token_vault_amount = u64::MAX;
    let before = ctx;
    assert_eq!(add_liquidity(&mut ctx, 0, 1), Err(ErrorCode::Overflow));
    assert_eq!(ctx, before);
}

#[test]
fn withdrawal_takes_from_position_pool_and_vaults() {
    let mut ctx = withdrawal_ctx(Some(pool_with(1000, 2000)), Some(position(600, 700)));
    assert_eq!(remove_liquidity(&mut ctx, 100, 700), Ok(()));
    assert_eq!(ctx.pool, Some(pool_with(900, 1300)));
    assert_eq!(ctx.lp_info, Some(position(500, 0)));
    assert_eq!(ctx.sol_vault_lamports, 900);
    assert_eq!(ctx.token_vault_amount, 1300);
}

#[test]
fn withdrawal_without_a_pool_is_refused() {
    let mut ctx = withdrawal_ctx(None, Some(position(1, 1)));
    let before = ctx;
    assert_eq!(remove_liquidity(&mut ctx, 1, 1), Err(ErrorCode::PoolNotFound));
    assert_eq!(ctx, before);
}

#[test]
fn withdrawal_without_a_position_is_refused() {
    let mut ctx = withdrawal_ctx(Some(pool_with(1000, 2000)), None);
    let before = ctx;
    assert_eq!(remove_liquidity(&mut ctx, 0, 0), Err(ErrorCode::PositionNotFound));
    assert_eq!(ctx, before);
}

#[test]
fn withdrawal_above_the_contribution_is_refused() {
    let mut ctx = withdrawal_ctx(Some(pool_with(1000, 2000)), Some(position(600, 700)));
    let before = ctx;
    assert_eq!(remove_liquidity(&mut ctx, 601, 0), Err(ErrorCode::InsufficientLiquidity));
    assert_eq!(ctx, before);
    assert_eq!(remove_liquidity(&mut ctx, 0, 701), Err(ErrorCode::InsufficientLiquidity));
    assert_eq!(ctx, before);
    assert_eq!(remove_liquidity(&mut ctx, 600, 700), Ok(()));
}

#[test]
fn withdrawal_above_the_vault_is_refused() {
    let mut ctx = withdrawal_ctx(Some(pool_with(1100, 1818)), Some(position(1000, 2000)));
    let before = ctx;
    assert_eq!(remove_liquidity(&mut ctx, 1000, 2000), Err(ErrorCode::InsufficientPoolBalance));
    assert_eq!(ctx, before);
}

#[test]
fn withdrawal_above_a_tracked_total_is_refused() {
    let mut ctx = withdrawal_ctx(Some(pool_with(10, 10)), Some(position(50, 50)));
    ctx.sol_vault_lamports = 100;
    ctx.token_vault_amount = 100;
    let before = ctx;
    assert_eq!(remove_liquidity(&mut ctx, 11, 0), Err(ErrorCode::Underflow));
    assert_eq!(ctx, before);
}

#[test]
fn resolving_a_position_twice_gives_the_same_empty_position() {
    let first = LPInfo::get_or_create(None, key(9));
    assert_eq!(first, position(0, 0));
    assert_eq!(first, LPInfo::new(key(9)));
    let second = LPInfo::get_or_create(Some(first), key(9));
    assert_eq!(second, first);
}

#[test]
fn resolving_keeps_a_stored_position() {
    let stored = position(3, 4);
    assert_eq!(LPInfo::get_or_create(Some(stored), key(9)), stored);
}

#[test]
fn record_deposit_adds_or_reports_overflow() {
    let mut p = position(1, 2);
    assert_eq!(p.record_deposit(10, 20), Ok(()));
    assert_eq!(p, position(11, 22));
    assert_eq!(p.record_deposit(u64::MAX - 10, 0), Err(ErrorCode::Overflow));
    assert_eq!(p, position(11, 22));
    assert_eq!(p.record_deposit(u64::MAX - 11, u64::MAX - 22), Ok(()));
    assert_eq!(p, position(u64::MAX, u64::MAX));
}

#[test]
fn record_withdrawal_subtracts_or_reports_shortfall() {
    let mut p = position(11, 22);
    assert_eq!(p.record_withdrawal(12, 0), Err(ErrorCode::InsufficientLiquidity));
    assert_eq!(p.record_withdrawal(0, 23), Err(ErrorCode::InsufficientLiquidity));
    assert_eq!(p, position(11, 22));
    assert_eq!(p.record_withdrawal(11, 2), Ok(()));
    assert_eq!(p, position(0, 20));
}

#[test]
fn pool_credit_and_debit_are_checked() {
    let mut pool = pool_with(5, 6);
    assert_eq!(pool.credit(u64::MAX, 0), Err(ErrorCode::Overflow));
    assert_eq!(pool, pool_with(5, 6));
    assert_eq!(pool.credit(1, 2), Ok(()));
    assert_eq!(pool, pool_with(6, 8));
    assert_eq!(pool.debit(7, 0), Err(ErrorCode::Underflow));
    assert_eq!(pool.debit(0, 9), Err(ErrorCode::Underflow));
    assert_eq!(pool, pool_with(6, 8));
    assert_eq!(pool.debit(6, 3), Ok(()));
    assert_eq!(pool, pool_with(0, 5));
}

#[test]
fn a_history_of_movements_nets_out() {
    let mut p = LPInfo::new(key(9));
    let history = [
        Movement::Deposit { sol_amount: 100, token_amount: 50 },
        Movement::Withdrawal { sol_amount: 30, token_amount: 50 },
        Movement::Deposit { sol_amount: 5, token_amount: 7 },
        Movement::Withdrawal { sol_amount: 75, token_amount: 0 },
    ];
    for m in history {
        assert!(apply(&mut p, m));
    }
    assert_eq!(p, position(100 - 30 + 5 - 75, 50 - 50 + 7));
    assert!(!apply(&mut p, Movement::Withdrawal { sol_amount: 1, token_amount: 0 }));
    assert_eq!(p, position(0, 7));
    assert!(!apply(&mut p, Movement::Deposit { sol_amount: 0, token_amount: u64::MAX }));
    assert_eq!(p, position(0, 7));
}

#[test]
fn deposits_and_withdrawals_through_the_pool_net_out() {
    let mut add = deposit_ctx(Some(pool_with(0, 0)), None);
    assert_eq!(add_liquidity(&mut add, 400, 900), Ok(()));
    assert_eq!(add_liquidity(&mut add, 100, 0), Ok(()));
    assert_eq!(add.lp_info, Some(position(500, 900)));

    let mut remove = RemoveLiquidity {
        pool: add.pool,
        lp: add.lp,
        sol_vault_lamports: add.sol_vault_lamports,
        token_vault_amount: add.token_vault_amount,
        lp_info: add.lp_info,
    };
    assert_eq!(remove_liquidity(&mut remove, 250, 900), Ok(()));
    assert_eq!(remove_liquidity(&mut remove, 251, 0), Err(ErrorCode::InsufficientLiquidity));
    assert_eq!(remove_liquidity(&mut remove, 250, 0), Ok(()));
    assert_eq!(remove.lp_info, Some(position(0, 0)));
    assert_eq!(remove.pool, Some(pool_with(0, 0)));
    assert_eq!(remove.sol_vault_lamports, 0);
    assert_eq!(remove.token_vault_amount, 0);
}
