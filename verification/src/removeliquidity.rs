use vstd::prelude::*;
use crate::error::ErrorCode;
use crate::state::{Address, LPInfo, Pool};

verus! {

/// The accounts that `remove_liquidity` works on, as they stand before the
/// withdrawal.
#[derive(Clone, Copy, Debug, PartialEq, Eq)]
pub struct RemoveLiquidity {
    /// The pool's record; `None` where the pool was never created.
    pub pool: Option<Pool>,
    /// The provider.
    pub lp: Address,
    /// Lamports in the pool's vault.
    pub sol_vault_lamports: u64,
    /// Tokens in the pool's vault.
    pub token_vault_amount: u64,
    /// The provider's position; `None` where they never deposited.
    pub lp_info: Option<LPInfo>,
}

impl RemoveLiquidity {
    /// The pool's tracked totals are what its vaults hold.
    pub open spec fn ledger_matches_vaults(self) -> bool {
        self.pool matches Some(pool) ==> pool.sol_amount == self.sol_vault_lamports
            && pool.token_amount == self.token_vault_amount
    }

    /// The accounts after a withdrawal of the two amounts, or why it is
    /// refused.
    pub open spec fn outcome(self, sol_amount: u64, token_amount: u64) -> Result<
        RemoveLiquidity,
        ErrorCode,
    > {
        match (self.pool, self.lp_info) {
            (None, _) => Err(ErrorCode::PoolNotFound),
            (Some(_), None) => Err(ErrorCode::PositionNotFound),
            (Some(pool), Some(position)) => match position.after_withdrawal(
                sol_amount,
                token_amount,
            ) {
                None => Err(ErrorCode::InsufficientLiquidity),
                Some(position) => if self.sol_vault_lamports < sol_amount
                    || self.token_vault_amount < token_amount {
                    Err(ErrorCode::InsufficientPoolBalance)
                } else {
                    match pool.after_debit(sol_amount, token_amount) {
                        None => Err(ErrorCode::Underflow),
                        Some(pool) => Ok(
                            RemoveLiquidity {
                                pool: Some(pool),
                                lp_info: Some(position),
                                sol_vault_lamports: (self.sol_vault_lamports - sol_amount) as u64,
                                token_vault_amount: (self.token_vault_amount
                                    - token_amount) as u64,
                                ..self
                            },
                        ),
                    }
                },
            },
        }
    }
}

/// A withdrawal above the provider's recorded contribution, in either
/// asset, is refused as such whatever the pool and its vaults hold; one that
/// goes through leaves every balance the exact difference, none below zero.
pub proof fn withdrawal_never_exceeds_contribution(
    ctx: RemoveLiquidity,
    sol_amount: u64,
    token_amount: u64,
)
    requires
        ctx.pool is Some,
        ctx.lp_info is Some,
    ensures
        sol_amount > ctx.lp_info->Some_0.sol_amount || token_amount
            > ctx.lp_info->Some_0.token_amount <==> ctx.outcome(sol_amount, token_amount) == Err::<
            RemoveLiquidity,
            ErrorCode,
        >(ErrorCode::InsufficientLiquidity),
        ctx.outcome(sol_amount, token_amount) matches Ok(after) ==> {
            &&& after.lp_info->Some_0.sol_amount == ctx.lp_info->Some_0.sol_amount - sol_amount
            &&& after.lp_info->Some_0.token_amount == ctx.lp_info->Some_0.token_amount
                - token_amount
            &&& after.lp_info->Some_0.owner == ctx.lp_info->Some_0.owner
            &&& after.pool->Some_0.sol_amount == ctx.pool->Some_0.sol_amount - sol_amount
            &&& after.pool->Some_0.token_amount == ctx.pool->Some_0.token_amount - token_amount
            &&& after.sol_vault_lamports == ctx.sol_vault_lamports - sol_amount
            &&& after.token_vault_amount == ctx.token_vault_amount - token_amount
        },
{
}

/// Withdraws the two amounts: they move from the pool's vaults to the
/// provider and are taken from the provider's position and from the pool's
/// totals.
///
/// What a provider may withdraw is bounded by their own recorded
/// contribution, whatever swaps have since done to the pool. After swaps a
/// vault may hold less than a position records; such a withdrawal passes the
/// position's bound and is refused for the vault's sake.
///
/// Refused, with nothing changed: `PoolNotFound` without a pool;
/// `PositionNotFound` without a position; `InsufficientLiquidity` where
/// either amount is above the position's; `InsufficientPoolBalance` where a
/// vault holds less than is asked of it; `Underflow` where a pool total is
/// below the amount.
pub fn remove_liquidity(ctx: &mut RemoveLiquidity, sol_amount: u64, token_amount: u64) -> (r:
    Result<(), ErrorCode>)
    ensures
        match old(ctx).outcome(sol_amount, token_amount) {
            Ok(after) => r == Ok::<(), ErrorCode>(()) && *final(ctx) == after,
            Err(e) => r == Err::<(), ErrorCode>(e) && *final(ctx) == *old(ctx),
        },
        old(ctx).pool is Some && (old(ctx).lp_info matches Some(position) && (sol_amount
            > position.sol_amount || token_amount > position.token_amount)) ==> r == Err::<
            (),
            ErrorCode,
        >(ErrorCode::InsufficientLiquidity) && *final(ctx) == *old(ctx),
        old(ctx).ledger_matches_vaults() ==> final(ctx).ledger_matches_vaults(),
{
    let mut pool: Pool = match ctx.pool {
        Some(pool) => pool,
        None => {
            return Err(ErrorCode::PoolNotFound);
        },
    };
    let mut position: LPInfo = match ctx.lp_info {
        Some(position) => position,
        None => {
            return Err(ErrorCode::PositionNotFound);
        },
    };

    match position.record_withdrawal(sol_amount, token_amount) {
        Ok(()) => {},
        Err(e) => {
            return Err(e);
        },
    }
    if ctx.sol_vault_lamports < sol_amount || ctx.token_vault_amount < token_amount {
        return Err(ErrorCode::InsufficientPoolBalance);
    }
    match pool.debit(sol_amount, token_amount) {
        Ok(()) => {},
        Err(e) => {
            return Err(e);
        },
    }

    ctx.sol_vault_lamports = ctx.sol_vault_lamports - sol_amount;
    ctx.token_vault_amount = ctx.token_vault_amount - token_amount;
    ctx.lp_info = Some(position);
    ctx.pool = Some(pool);
    Ok(())
}

} // verus!
