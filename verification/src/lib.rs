//! Accounting core of a two-asset constant-product market maker.
//!
//! A pool holds reserves of two assets and issues shares to those who
//! deposit into it. Swaps are priced on the curve `x * y = k`, with a fee
//! that stays in the pool. This crate computes and checks; it moves nothing.
//! The caller reads the ledger, hands the balances in, and carries out the
//! transfers and mints for the amounts that come back.

pub mod curve;
pub mod error;
pub mod instructions;
pub mod pubkey;
pub mod registry;
pub mod state;

pub use crate::curve::{shares_for_deposit, swap_amount_out, trade_fee, BOOTSTRAP_SHARES, BPS_DENOMINATOR};
pub use crate::error::PoolError;
pub use crate::instructions::{add_liquidity, create_pool, swap, AddLiquidity, CreatePool, Swap};
pub use crate::pubkey::Pubkey;
pub use crate::registry::PoolRegistry;
pub use crate::state::{Mint, Pool, TokenAccount, MAX_FEE_BPS};
