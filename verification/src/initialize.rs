use vstd::prelude::*;
use crate::error::ErrorCode;
use crate::state::{Address, Pool};

verus! {

/// The accounts that `initialize` works on.
#[derive(Clone, Copy, Debug, PartialEq, Eq)]
pub struct InitializePool {
    /// The pool's record; `None` until the pool is created.
    pub pool: Option<Pool>,
    /// The bump of the pool's own address.
    pub pool_bump: u8,
    pub token_mint: Address,
    pub token_vault: Address,
    pub sol_vault: Address,
    /// Who creates the pool.
    pub authority: Address,
}

impl InitializePool {
    /// The record that `initialize` writes.
    pub open spec fn created(self) -> Pool {
        Pool::empty(self.authority, self.pool_bump, self.token_mint, self.sol_vault, self.token_vault)
    }
}

/// Creates the pool, with nothing accounted for. Fails with
/// `PoolAlreadyInitialized`, changing nothing, where the pool exists.
pub fn initialize(ctx: &mut InitializePool) -> (r: Result<(), ErrorCode>)
    ensures
        old(ctx).pool is None ==> r == Ok::<(), ErrorCode>(()) && *final(ctx) == (InitializePool {
            pool: Some(old(ctx).created()),
            ..*old(ctx)
        }),
        old(ctx).pool is Some ==> r == Err::<(), ErrorCode>(ErrorCode::PoolAlreadyInitialized)
            && *final(ctx) == *old(ctx),
{
    if ctx.pool.is_some() {
        return Err(ErrorCode::PoolAlreadyInitialized);
    }
    ctx.pool = Some(
        Pool {
            authority: ctx.authority,
            bump: ctx.pool_bump,
            token_mint: ctx.token_mint,
            sol_vault: ctx.sol_vault,
            token_vault: ctx.token_vault,
            sol_amount: 0,
            token_amount: 0,
        },
    );
    Ok(())
}

} // verus!
