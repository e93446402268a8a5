use vstd::prelude::*;
use crate::error::ErrorCode;
use crate::pricing::{settle_swap, swap_outcome};
use crate::state::{Address, Pool};

verus! {

/// The accounts that `swap_sol` works on, as they stand before the swap.
#[derive(Clone, Copy, Debug, PartialEq, Eq)]
pub struct SwapSol {
    /// The pool's record; `None` where the pool was never created.
    pub pool: Option<Pool>,
    pub trader: Address,
    /// Lamports the trader holds.
    pub trader_lamports: u64,
    /// Lamports in the pool's vault.
    pub sol_vault_lamports: u64,
    /// Tokens in the pool's vault.
    pub token_vault_amount: u64,
}

impl SwapSol {
    /// The pool's tracked totals are what its vaults hold.
    pub open spec fn ledger_matches_vaults(self) -> bool {
        self.pool matches Some(pool) ==> pool.sol_amount == self.sol_vault_lamports
            && pool.token_amount == self.token_vault_amount
    }

    /// The tokens that a swap of `sol_amount` lamports pays out, or why it is
    /// refused. The price is taken from the vaults, not from the pool's
    /// tracked totals.
    pub open spec fn outcome(self, sol_amount: u64) -> Result<u64, ErrorCode> {
        match self.pool {
            None => Err(ErrorCode::PoolNotFound),
            Some(pool) => swap_outcome(
                pool.sol_amount,
                pool.token_amount,
                self.sol_vault_lamports,
                self.token_vault_amount,
                self.trader_lamports,
                sol_amount,
            ),
        }
    }

    /// The accounts after `sol_amount` lamports came in and `token_amount`
    /// tokens went out.
    pub open spec fn after_swap(self, pool: Pool, sol_amount: u64, token_amount: u64) -> SwapSol {
        SwapSol {
            pool: Some(
                Pool {
                    sol_amount: (pool.sol_amount + sol_amount) as u64,
                    token_amount: (pool.token_amount - token_amount) as u64,
                    ..pool
                },
            ),
            trader_lamports: (self.trader_lamports - sol_amount) as u64,
            sol_vault_lamports: (self.sol_vault_lamports + sol_amount) as u64,
            token_vault_amount: (self.token_vault_amount - token_amount) as u64,
            ..self
        }
    }
}

/// A swap of lamports that goes through leaves every balance the exact sum
/// or difference, and keeps the product of the two vault balances up to the
/// remainder of the division: it never grows, and it shrinks by less than
/// the lamports the vault then holds.
pub proof fn swap_sol_keeps_the_product(ctx: SwapSol, sol_amount: u64)
    requires
        ctx.outcome(sol_amount) is Ok,
    ensures
        ({
            let token_amount = ctx.outcome(sol_amount)->Ok_0;
            let pool = ctx.pool->Some_0;
            let after = ctx.after_swap(pool, sol_amount, token_amount);
            let before_product = ctx.sol_vault_lamports * ctx.token_vault_amount;
            let after_product = after.sol_vault_lamports * after.token_vault_amount;
            &&& after.sol_vault_lamports == ctx.sol_vault_lamports + sol_amount
            &&& after.token_vault_amount == ctx.token_vault_amount - token_amount
            &&& after.trader_lamports == ctx.trader_lamports - sol_amount
            &&& after.pool->Some_0.sol_amount == pool.sol_amount + sol_amount
            &&& after.pool->Some_0.token_amount == pool.token_amount - token_amount
            &&& after_product <= before_product
            &&& before_product - after_product < after.sol_vault_lamports
        }),
{
    let pool = ctx.pool->Some_0;
    crate::pricing::settled_swap_is_sound(
        pool.sol_amount,
        pool.token_amount,
        ctx.sol_vault_lamports,
        ctx.token_vault_amount,
        ctx.trader_lamports,
        sol_amount,
    );
}

/// Swaps `sol_amount` lamports for tokens at the constant-product price and
/// returns the tokens paid out. The lamports move from the trader to the
/// vault, the tokens leave the vault, and the pool's totals follow.
///
/// Refused, with nothing changed, for the first of these that holds:
/// `PoolNotFound` without a pool; `InvalidAmount` for a swap of nothing;
/// `Overflow` where the vault cannot hold the lamports; `OutputTooSmall`
/// where the price rounds down to no token at all;
/// `InsufficientTraderBalance` where the trader holds too little;
/// `Overflow` or `Underflow` where a pool total cannot follow.
pub fn swap_sol(ctx: &mut SwapSol, sol_amount: u64) -> (r: Result<u64, ErrorCode>)
    ensures
        r == old(ctx).outcome(sol_amount),
        r is Err ==> *final(ctx) == *old(ctx),
        r matches Ok(token_amount) ==> *final(ctx) == old(ctx).after_swap(
            old(ctx).pool->Some_0,
            sol_amount,
            token_amount,
        ),
        old(ctx).ledger_matches_vaults() ==> final(ctx).ledger_matches_vaults(),
{
    let mut pool: Pool = match ctx.pool {
        Some(pool) => pool,
        None => {
            return Err(ErrorCode::PoolNotFound);
        },
    };
    let token_amount: u64 = match settle_swap(
        pool.sol_amount,
        pool.token_amount,
        ctx.sol_vault_lamports,
        ctx.token_vault_amount,
        ctx.trader_lamports,
        sol_amount,
    ) {
        Ok(token_amount) => token_amount,
        Err(e) => {
            return Err(e);
        },
    };
    proof {
        crate::pricing::output_is_bounded(
            ctx.sol_vault_lamports,
            ctx.token_vault_amount,
            sol_amount,
        );
    }
    pool.sol_amount = pool.sol_amount + sol_amount;
    pool.token_amount = pool.token_amount - token_amount;
    ctx.trader_lamports = ctx.trader_lamports - sol_amount;
    ctx.sol_vault_lamports = ctx.sol_vault_lamports + sol_amount;
    ctx.token_vault_amount = ctx.token_vault_amount - token_amount;
    ctx.pool = Some(pool);
    Ok(token_amount)
}

} // verus!
