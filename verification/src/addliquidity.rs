use vstd::prelude::*;
use crate::error::ErrorCode;
use crate::state::{Address, LPInfo, Pool};

verus! {

/// The accounts that `add_liquidity` works on, as they stand before the
/// deposit.
#[derive(Clone, Copy, Debug, PartialEq, Eq)]
pub struct AddLiquidity {
    /// The pool's record; `None` where the pool was never created.
    pub pool: Option<Pool>,
    /// The provider.
    pub lp: Address,
    /// Lamports the provider holds.
    pub lp_lamports: u64,
    /// Tokens the provider holds.
    pub user_token_amount: u64,
    /// Lamports in the pool's vault.
    pub sol_vault_lamports: u64,
    /// Tokens in the pool's vault.
    pub token_vault_amount: u64,
    /// The provider's position; `None` before their first deposit.
    pub lp_info: Option<LPInfo>,
}

impl AddLiquidity {
    /// The pool's tracked totals are what its vaults hold.
    pub open spec fn ledger_matches_vaults(self) -> bool {
        self.pool matches Some(pool) ==> pool.sol_amount == self.sol_vault_lamports
            && pool.token_amount == self.token_vault_amount
    }

    /// The accounts after a deposit of the two amounts, or why it is refused.
    pub open spec fn outcome(self, sol_amount: u64, token_amount: u64) -> Result<
        AddLiquidity,
        ErrorCode,
    > {
        match self.pool {
            None => Err(ErrorCode::PoolNotFound),
            Some(pool) => if self.lp_lamports < sol_amount || self.user_token_amount
                < token_amount {
                Err(ErrorCode::InsufficientTraderBalance)
            } else if self.sol_vault_lamports + sol_amount > u64::MAX || self.token_vault_amount
                + token_amount > u64::MAX {
                Err(ErrorCode::Overflow)
            } else {
                match (
                    LPInfo::resolved(self.lp_info, self.lp).after_deposit(sol_amount, token_amount),
                    pool.after_credit(sol_amount, token_amount),
                ) {
                    (Some(position), Some(pool)) => Ok(
                        AddLiquidity {
                            pool: Some(pool),
                            lp_info: Some(position),
                            lp_lamports: (self.lp_lamports - sol_amount) as u64,
                            user_token_amount: (self.user_token_amount - token_amount) as u64,
                            sol_vault_lamports: (self.sol_vault_lamports + sol_amount) as u64,
                            token_vault_amount: (self.token_vault_amount + token_amount) as u64,
                            ..self
                        },
                    ),
                    _ => Err(ErrorCode::Overflow),
                }
            },
        }
    }
}

/// A deposit goes through exactly when there is a pool, the provider holds
/// both amounts, and neither vault, nor the position, nor a pool total would
/// pass the largest 64-bit amount; then every balance is the exact sum or
/// difference. A deposit that is refused although pool and funds are
/// there is refused for overflow.
pub proof fn deposit_never_wraps(ctx: AddLiquidity, sol_amount: u64, token_amount: u64)
    ensures
        ({
            let position = LPInfo::resolved(ctx.lp_info, ctx.lp);
            let funded = ctx.lp_lamports >= sol_amount && ctx.user_token_amount >= token_amount;
            let fits = ctx.pool is Some && ctx.sol_vault_lamports + sol_amount <= u64::MAX
                && ctx.token_vault_amount + token_amount <= u64::MAX && position.sol_amount
                + sol_amount <= u64::MAX && position.token_amount + token_amount <= u64::MAX
                && ctx.pool->Some_0.sol_amount + sol_amount <= u64::MAX
                && ctx.pool->Some_0.token_amount + token_amount <= u64::MAX;
            &&& ctx.outcome(sol_amount, token_amount) is Ok <==> funded && fits
            &&& ctx.pool is Some && funded && !fits ==> ctx.outcome(sol_amount, token_amount)
                == Err::<AddLiquidity, ErrorCode>(ErrorCode::Overflow)
            &&& ctx.outcome(sol_amount, token_amount) matches Ok(after) ==> {
                &&& after.pool->Some_0.sol_amount == ctx.pool->Some_0.sol_amount + sol_amount
                &&& after.pool->Some_0.token_amount == ctx.pool->Some_0.token_amount
                    + token_amount
                &&& after.lp_info->Some_0.sol_amount == position.sol_amount + sol_amount
                &&& after.lp_info->Some_0.token_amount == position.token_amount + token_amount
                &&& after.lp_info->Some_0.owner == position.owner
                &&& after.sol_vault_lamports == ctx.sol_vault_lamports + sol_amount
                &&& after.token_vault_amount == ctx.token_vault_amount + token_amount
                &&& after.lp_lamports == ctx.lp_lamports - sol_amount
                &&& after.user_token_amount == ctx.user_token_amount - token_amount
            }
        }),
{
}

/// Deposits the two amounts, in any ratio: they move from the provider to
/// the pool's vaults and are added to the provider's position and to the
/// pool's totals. The position is created, empty, where the provider has
/// none yet.
///
/// Refused, with nothing changed: `PoolNotFound` without a pool;
/// `InsufficientTraderBalance` where the provider holds less than either
/// amount; `Overflow` where a vault, the position or a pool total would
/// pass the largest 64-bit amount.
pub fn add_liquidity(ctx: &mut AddLiquidity, sol_amount: u64, token_amount: u64) -> (r: Result<
    (),
    ErrorCode,
>)
    ensures
        match old(ctx).outcome(sol_amount, token_amount) {
            Ok(after) => r == Ok::<(), ErrorCode>(()) && *final(ctx) == after,
            Err(e) => r == Err::<(), ErrorCode>(e) && *final(ctx) == *old(ctx),
        },
        old(ctx).ledger_matches_vaults() ==> final(ctx).ledger_matches_vaults(),
{
    let mut pool: Pool = match ctx.pool {
        Some(pool) => pool,
        None => {
            return Err(ErrorCode::PoolNotFound);
        },
    };
    let mut position: LPInfo = LPInfo::get_or_create(ctx.lp_info, ctx.lp);

    if ctx.lp_lamports < sol_amount || ctx.user_token_amount < token_amount {
        return Err(ErrorCode::InsufficientTraderBalance);
    }
    let (sol_vault_lamports, token_vault_amount) = match (
        ctx.sol_vault_lamports.checked_add(sol_amount),
        ctx.token_vault_amount.checked_add(token_amount),
    ) {
        (Some(sol), Some(token)) => (sol, token),
        _ => {
            return Err(ErrorCode::Overflow);
        },
    };

    match position.record_deposit(sol_amount, token_amount) {
        Ok(()) => {},
        Err(e) => {
            return Err(e);
        },
    }
    match pool.credit(sol_amount, token_amount) {
        Ok(()) => {},
        Err(e) => {
            return Err(e);
        },
    }

    ctx.lp_lamports = ctx.lp_lamports - sol_amount;
    ctx.user_token_amount = ctx.user_token_amount - token_amount;
    ctx.sol_vault_lamports = sol_vault_lamports;
    ctx.token_vault_amount = token_vault_amount;
    ctx.lp_info = Some(position);
    ctx.pool = Some(pool);
    Ok(())
}

} // verus!
