use vstd::prelude::*;
use crate::error::ErrorCode;
use crate::pricing::{settle_swap, swap_outcome};
use crate::state::{Address, Pool};

verus! {

/// The accounts that `swap_token` works on, as they stand before the swap.
#[derive(Clone, Copy, Debug, PartialEq, Eq)]
pub struct SwapToken {
    /// The pool's record; `None` where the pool was never created.
    pub pool: Option<Pool>,
    pub trader: Address,
    /// Tokens the trader holds.
    pub trader_token_amount: u64,
    /// Lamports in the pool's vault.
    pub sol_vault_lamports: u64,
    /// Tokens in the pool's vault.
    pub token_vault_amount: u64,
}

impl SwapToken {
    /// The pool's tracked totals are what its vaults hold.
    pub open spec fn ledger_matches_vaults(self) -> bool {
        self.pool matches Some(pool) ==> pool.sol_amount == self.sol_vault_lamports
            && pool.token_amount == self.token_vault_amount
    }

    /// The lamports that a swap of `token_amount` tokens pays out, or why it
    /// is refused. The price is taken from the vaults, not from the pool's
    /// tracked totals.
    pub open spec fn outcome(self, token_amount: u64) -> Result<u64, ErrorCode> {
        match self.pool {
            None => Err(ErrorCode::PoolNotFound),
            Some(pool) => swap_outcome(
                pool.token_amount,
                pool.sol_amount,
                self.token_vault_amount,
                self.sol_vault_lamports,
                self.trader_token_amount,
                token_amount,
            ),
        }
    }

    /// The accounts after `token_amount` tokens came in and `sol_amount`
    /// lamports went out.
    pub open spec fn after_swap(self, pool: Pool, token_amount: u64, sol_amount: u64) -> SwapToken {
        SwapToken {
            pool: Some(
                Pool {
                    sol_amount: (pool.sol_amount - sol_amount) as u64,
                    token_amount: (pool.token_amount + token_amount) as u64,
                    ..pool
                },
            ),
            trader_token_amount: (self.trader_token_amount - token_amount) as u64,
            sol_vault_lamports: (self.sol_vault_lamports - sol_amount) as u64,
            token_vault_amount: (self.token_vault_amount + token_amount) as u64,
            ..self
        }
    }
}

/// A swap of tokens that goes through leaves every balance the exact sum or
/// difference, and keeps the product of the two vault balances up to the
/// remainder of the division: it never grows, and it shrinks by less than
/// the tokens the vault then holds.
pub proof fn swap_token_keeps_the_product(ctx: SwapToken, token_amount: u64)
    requires
        ctx.outcome(token_amount) is Ok,
    ensures
        ({
            let sol_amount = ctx.outcome(token_amount)->Ok_0;
            let pool = ctx.pool->Some_0;
            let after = ctx.after_swap(pool, token_amount, sol_amount);
            let before_product = ctx.token_vault_amount * ctx.sol_vault_lamports;
            let after_product = after.token_vault_amount * after.sol_vault_lamports;
            &&& after.token_vault_amount == ctx.token_vault_amount + token_amount
            &&& after.sol_vault_lamports == ctx.sol_vault_lamports - sol_amount
            &&& after.trader_token_amount == ctx.trader_token_amount - token_amount
            &&& after.pool->Some_0.token_amount == pool.token_amount + token_amount
            &&& after.pool->Some_0.sol_amount == pool.sol_amount - sol_amount
            &&& after_product <= before_product
            &&& before_product - after_product < after.token_vault_amount
        }),
{
    let pool = ctx.pool->Some_0;
    crate::pricing::settled_swap_is_sound(
        pool.token_amount,
        pool.sol_amount,
        ctx.token_vault_amount,
        ctx.sol_vault_lamports,
        ctx.trader_token_amount,
        token_amount,
    );
}

/// Swaps `token_amount` tokens for lamports at the constant-product price
/// and returns the lamports paid out. The tokens move from the trader to the
/// vault, the lamports leave the vault, and the pool's totals follow.
///
/// Refused, with nothing changed, for the first of these that holds:
/// `PoolNotFound` without a pool; `InvalidAmount` for a swap of nothing;
/// `Overflow` where the vault cannot hold the tokens; `OutputTooSmall`
/// where the price rounds down to no lamport at all;
/// `InsufficientTraderBalance` where the trader holds too little;
/// `Overflow` or `Underflow` where a pool total cannot follow.
pub fn swap_token(ctx: &mut SwapToken, token_amount: u64) -> (r: Result<u64, ErrorCode>)
    ensures
        r == old(ctx).outcome(token_amount),
        r is Err ==> *final(ctx) == *old(ctx),
        r matches Ok(sol_amount) ==> *final(ctx) == old(ctx).after_swap(
            old(ctx).pool->Some_0,
            token_amount,
            sol_amount,
        ),
        old(ctx).ledger_matches_vaults() ==> final(ctx).ledger_matches_vaults(),
{
    let mut pool: Pool = match ctx.pool {
        Some(pool) => pool,
        None => {
            return Err(ErrorCode::PoolNotFound);
        },
    };
    let sol_amount: u64 = match settle_swap(
        pool.token_amount,
        pool.sol_amount,
        ctx.token_vault_amount,
        ctx.sol_vault_lamports,
        ctx.trader_token_amount,
        token_amount,
    ) {
        Ok(sol_amount) => sol_amount,
        Err(e) => {
            return Err(e);
        },
    };
    proof {
        crate::pricing::output_is_bounded(
            ctx.token_vault_amount,
            ctx.sol_vault_lamports,
            token_amount,
        );
    }
    pool.token_amount = pool.token_amount + token_amount;
    pool.sol_amount = pool.sol_amount - sol_amount;
    ctx.trader_token_amount = ctx.trader_token_amount - token_amount;
    ctx.token_vault_amount = ctx.token_vault_amount + token_amount;
    ctx.sol_vault_lamports = ctx.sol_vault_lamports - sol_amount;
    ctx.pool = Some(pool);
    Ok(sol_amount)
}

} // verus!
