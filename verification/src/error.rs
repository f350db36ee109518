//! The ways in which an operation on a pool can fail.

use vstd::prelude::*;

verus! {

/// Why an operation was refused. Every failure is reported to the caller
/// unchanged; nothing is retried.
#[derive(Clone, Copy, Debug, PartialEq, Eq, Structural)]
pub enum PoolError {
    /// The two assets of a new pool are the same asset.
    InvalidAssetPair,
    /// A vault handed to pool creation is not owned by the pool, or holds
    /// another asset than the one it is declared for.
    VaultOwnershipMismatch,
    /// The share mint handed to pool creation is not under the pool's sole
    /// authority, or shares of it are already outstanding.
    MintAuthorityMismatch,
    /// A pool for the same ordered asset pair is already registered.
    PoolAlreadyExists,
    /// A product does not fit the 64-bit range.
    ArithmeticOverflow,
    /// A division by zero, an underflow, or another step without a valid result.
    CalculationError,
}

} // verus!
