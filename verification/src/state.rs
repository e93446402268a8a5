use vstd::prelude::*;
use crate::error::ErrorCode;

verus! {

/// The identity of an account or a signer: a 32-byte public key.
#[derive(Clone, Copy, Debug, PartialEq, Eq)]
pub struct Address {
    pub bytes: [u8; 32],
}

/// The pool's own record: who created it, where its funds are held, and how
/// much of each asset it accounts for.
#[derive(Clone, Copy, Debug, PartialEq, Eq)]
pub struct Pool {
    pub authority: Address,
    pub bump: u8,
    pub token_mint: Address,
    pub sol_vault: Address,
    pub token_vault: Address,
    /// Lamports the pool accounts for.
    pub sol_amount: u64,
    /// Tokens the pool accounts for.
    pub token_amount: u64,
}

/// One provider's position: what they have deposited less what they have
/// withdrawn, per asset.
#[derive(Clone, Copy, Debug, PartialEq, Eq)]
pub struct LPInfo {
    pub owner: Address,
    pub sol_amount: u64,
    pub token_amount: u64,
    pub bump: u8,
}

impl Pool {
    /// The pool as `initialize` creates it: nothing accounted for yet.
    pub open spec fn empty(
        authority: Address,
        bump: u8,
        token_mint: Address,
        sol_vault: Address,
        token_vault: Address,
    ) -> Pool {
        Pool { authority, bump, token_mint, sol_vault, token_vault, sol_amount: 0, token_amount: 0 }
    }

    /// The pool after taking in the two amounts, where both totals still fit.
    pub open spec fn after_credit(self, sol_amount: u64, token_amount: u64) -> Option<Pool> {
        if self.sol_amount + sol_amount <= u64::MAX && self.token_amount + token_amount
            <= u64::MAX {
            Some(
                Pool {
                    sol_amount: (self.sol_amount + sol_amount) as u64,
                    token_amount: (self.token_amount + token_amount) as u64,
                    ..self
                },
            )
        } else {
            None
        }
    }

    /// The pool after paying out the two amounts, where it accounts for both.
    pub open spec fn after_debit(self, sol_amount: u64, token_amount: u64) -> Option<Pool> {
        if sol_amount <= self.sol_amount && token_amount <= self.token_amount {
            Some(
                Pool {
                    sol_amount: (self.sol_amount - sol_amount) as u64,
                    token_amount: (self.token_amount - token_amount) as u64,
                    ..self
                },
            )
        } else {
            None
        }
    }

    /// Both tracked totals, native asset first, widened for pricing.
    pub fn current_balances(&self) -> (r: (u128, u128))
        ensures
            r.0 == self.sol_amount,
            r.1 == self.token_amount,
    {
        (self.sol_amount as u128, self.token_amount as u128)
    }

    /// Adds to both totals, or fails with `Overflow` and changes nothing.
    pub fn credit(&mut self, sol_amount: u64, token_amount: u64) -> (r: Result<(), ErrorCode>)
        ensures
            match old(self).after_credit(sol_amount, token_amount) {
                Some(p) => r == Ok::<(), ErrorCode>(()) && *final(self) == p,
                None => r == Err::<(), ErrorCode>(ErrorCode::Overflow)
                    && *final(self) == *old(self),
            },
    {
        match (self.sol_amount.checked_add(sol_amount), self.token_amount.checked_add(token_amount)) {
            (Some(sol), Some(token)) => {
                self.sol_amount = sol;
                self.token_amount = token;
                Ok(())
            },
            _ => Err(ErrorCode::Overflow),
        }
    }

    /// Takes from both totals, or fails with `Underflow` and changes nothing.
    pub fn debit(&mut self, sol_amount: u64, token_amount: u64) -> (r: Result<(), ErrorCode>)
        ensures
            match old(self).after_debit(sol_amount, token_amount) {
                Some(p) => r == Ok::<(), ErrorCode>(()) && *final(self) == p,
                None => r == Err::<(), ErrorCode>(ErrorCode::Underflow)
                    && *final(self) == *old(self),
            },
    {
        match (self.sol_amount.checked_sub(sol_amount), self.token_amount.checked_sub(token_amount)) {
            (Some(sol), Some(token)) => {
                self.sol_amount = sol;
                self.token_amount = token;
                Ok(())
            },
            _ => Err(ErrorCode::Underflow),
        }
    }
}

impl LPInfo {
    /// A fresh position: the owner's, with nothing contributed.
    pub open spec fn zeroed(owner: Address) -> LPInfo {
        LPInfo { owner, sol_amount: 0, token_amount: 0, bump: 0 }
    }

    /// The position that an operation by `owner` works on: the stored one, or
    /// a fresh one where none is stored.
    pub open spec fn resolved(stored: Option<LPInfo>, owner: Address) -> LPInfo {
        match stored {
            Some(position) => position,
            None => LPInfo::zeroed(owner),
        }
    }

    /// The position after a deposit, where both sums still fit.
    pub open spec fn after_deposit(self, sol_amount: u64, token_amount: u64) -> Option<LPInfo> {
        if self.sol_amount + sol_amount <= u64::MAX && self.token_amount + token_amount
            <= u64::MAX {
            Some(
                LPInfo {
                    sol_amount: (self.sol_amount + sol_amount) as u64,
                    token_amount: (self.token_amount + token_amount) as u64,
                    ..self
                },
            )
        } else {
            None
        }
    }

    /// The position after a withdrawal, where it covers both amounts.
    pub open spec fn after_withdrawal(self, sol_amount: u64, token_amount: u64) -> Option<LPInfo> {
        if sol_amount <= self.sol_amount && token_amount <= self.token_amount {
            Some(
                LPInfo {
                    sol_amount: (self.sol_amount - sol_amount) as u64,
                    token_amount: (self.token_amount - token_amount) as u64,
                    ..self
                },
            )
        } else {
            None
        }
    }

    /// Makes a fresh position for `owner`.
    pub fn new(owner: Address) -> (r: LPInfo)
        ensures
            r == LPInfo::zeroed(owner),
    {
        LPInfo { owner, sol_amount: 0, token_amount: 0, bump: 0 }
    }

    /// Hands back the stored position, or a fresh one for `owner` where none
    /// is stored.
    pub fn get_or_create(stored: Option<LPInfo>, owner: Address) -> (r: LPInfo)
        ensures
            r == LPInfo::resolved(stored, owner),
    {
        match stored {
            Some(position) => position,
            None => LPInfo::new(owner),
        }
    }

    /// Adds a deposit to the position, or fails with `Overflow` and changes
    /// nothing.
    pub fn record_deposit(&mut self, sol_amount: u64, token_amount: u64) -> (r: Result<
        (),
        ErrorCode,
    >)
        ensures
            match old(self).after_deposit(sol_amount, token_amount) {
                Some(p) => r == Ok::<(), ErrorCode>(()) && *final(self) == p,
                None => r == Err::<(), ErrorCode>(ErrorCode::Overflow)
                    && *final(self) == *old(self),
            },
    {
        match (self.sol_amount.checked_add(sol_amount), self.token_amount.checked_add(token_amount)) {
            (Some(sol), Some(token)) => {
                self.sol_amount = sol;
                self.token_amount = token;
                Ok(())
            },
            _ => Err(ErrorCode::Overflow),
        }
    }

    /// Takes a withdrawal from the position, or fails with
    /// `InsufficientLiquidity` and changes nothing.
    pub fn record_withdrawal(&mut self, sol_amount: u64, token_amount: u64) -> (r: Result<
        (),
        ErrorCode,
    >)
        ensures
            match old(self).after_withdrawal(sol_amount, token_amount) {
                Some(p) => r == Ok::<(), ErrorCode>(()) && *final(self) == p,
                None => r == Err::<(), ErrorCode>(ErrorCode::InsufficientLiquidity)
                    && *final(self) == *old(self),
            },
    {
        if sol_amount > self.sol_amount || token_amount > self.token_amount {
            return Err(ErrorCode::InsufficientLiquidity);
        }
        self.sol_amount = self.sol_amount - sol_amount;
        self.token_amount = self.token_amount - token_amount;
        Ok(())
    }

    /// Resolving a provider's position a second time gives the position that
    /// the first resolution gave; for a provider with nothing stored that is
    /// the fresh, empty position, both times.
    pub proof fn resolution_is_idempotent(stored: Option<LPInfo>, owner: Address)
        ensures
            LPInfo::resolved(Some(LPInfo::resolved(stored, owner)), owner) == LPInfo::resolved(
                stored,
                owner,
            ),
            stored is None ==> LPInfo::resolved(stored, owner) == LPInfo::zeroed(owner),
    {
    }
}

} // verus!
