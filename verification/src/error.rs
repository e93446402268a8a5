use vstd::prelude::*;

verus! {

/// Why an operation was refused. A refused operation changes nothing.
#[derive(Clone, Copy, Debug, PartialEq, Eq, Structural)]
pub enum ErrorCode {
    /// A balance would have grown past the largest 64-bit amount.
    Overflow,
    /// A tracked pool total would have dropped below zero.
    Underflow,
    /// A withdrawal asks for more than the provider's recorded contribution.
    InsufficientLiquidity,
    /// The pool's vault holds less than must be paid out.
    InsufficientPoolBalance,
    /// The caller holds less than must be paid in.
    InsufficientTraderBalance,
    /// A withdrawal by a provider who has never deposited.
    PositionNotFound,
    /// `initialize` on a pool that already exists.
    PoolAlreadyInitialized,
    /// An operation on a pool that was never initialized.
    PoolNotFound,
    /// A swap of nothing.
    InvalidAmount,
    /// A swap whose input is too small to buy a single unit.
    OutputTooSmall,
}

} // verus!
