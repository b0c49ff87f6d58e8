//! The closed sets of error kinds that the engine reports.

use vstd::prelude::*;

verus! {

/// Everything that can go wrong while managing or paying out a reward pool.
/// Every failure of a public entry point is one of these; none is ever
/// swallowed, and none leaves a partial write behind.
#[derive(Clone, Copy, Debug, PartialEq, Eq)]
pub enum RewardErrorCode {
    /// The fungible-asset ledger reference was never configured.
    NotInitialized,
    /// The pool balance cannot cover the requested fungible amount.
    InsufficientPool,
    /// The idempotency gate is already set for this hunt/player pair.
    AlreadyDistributed,
    /// The fungible-asset ledger rejected the transfer.
    TransferFailed,
    /// A non-positive amount was supplied where a positive one is required.
    InvalidAmount,
    /// The request names no asset at all, or no collectible issuer resolves.
    InvalidConfig,
    /// The collectible-issuing contract rejected the mint.
    NftMintFailed,
    /// A pool already exists for this hunt id.
    PoolAlreadyExists,
    /// No pool was ever created for this hunt id.
    PoolNotFound,
    /// The funder is not the pool's creator.
    Unauthorized,
    /// The requested fungible amount is below the pool's configured floor.
    BelowMinimumAmount,
}

/// Failures of the collectible-reward contract itself.
#[derive(Clone, Copy, Debug, PartialEq, Eq)]
pub enum NftErrorCode {
    /// No collectible with the given id exists.
    NftNotFound,
    /// The caller does not own the collectible.
    NotOwner,
}

} // verus!
