//! A two-asset constant-product exchange: one shared pool of a native asset
//! (SOL, counted in lamports) and a token, liquidity positions recorded per
//! provider, and fee-free swaps in either direction.
//!
//! Every operation works on a snapshot of the accounts it touches and either
//! applies in full or leaves the snapshot as it was.

pub mod error;
pub mod state;
pub mod pricing;
pub mod initialize;
pub mod addliquidity;
pub mod removeliquidity;
pub mod swapsol;
pub mod swaptoken;
pub mod history;

pub use crate::error::ErrorCode;
pub use crate::state::{Address, LPInfo, Pool};
pub use crate::initialize::{initialize, InitializePool};
pub use crate::addliquidity::{add_liquidity, AddLiquidity};
pub use crate::removeliquidity::{remove_liquidity, RemoveLiquidity};
pub use crate::swapsol::{swap_sol, SwapSol};
pub use crate::swaptoken::{swap_token, SwapToken};
