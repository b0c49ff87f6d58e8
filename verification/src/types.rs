//! Requests, records and query results of the reward engine.

use vstd::prelude::*;

verus! {

/// A distribution request: an optional fungible amount and an optional
/// collectible, with the collectible's display metadata.  A request is valid
/// only if it names at least one of the two.
#[derive(Debug)]
pub struct RewardConfig {
    /// Fungible amount to pay out; `None` if no fungible reward.
    pub xlm_amount: Option<i128>,
    /// Address of the collectible-issuing contract; `None` if no collectible.
    pub nft_contract: Option<u64>,
    /// Collectible title, used when `nft_contract` is set.
    pub nft_title: String,
    /// Collectible description, used when `nft_contract` is set.
    pub nft_description: String,
    /// Collectible image reference, used when `nft_contract` is set.
    pub nft_image_uri: String,
    /// Title of the hunt, kept with the collectible for display.
    pub nft_hunt_title: String,
    /// Rarity tier: 0 = default, 1 to 5 = common to legendary.
    pub nft_rarity: u32,
    /// Custom tier (0 = none).
    pub nft_tier: u32,
}

impl RewardConfig {
    /// A fungible reward is requested: a positive amount is present.
    pub open spec fn spec_has_xlm(self) -> bool {
        match self.xlm_amount {
            Some(a) => a > 0,
            None => false,
        }
    }

    /// A collectible reward is requested.
    pub open spec fn spec_has_nft(self) -> bool {
        self.nft_contract is Some
    }

    /// At least one reward kind is requested.
    pub open spec fn spec_is_valid(self) -> bool {
        self.spec_has_xlm() || self.spec_has_nft()
    }

    /// Returns true if a fungible reward is configured.
    pub fn has_xlm(&self) -> (r: bool)
        ensures
            r == self.spec_has_xlm(),
    {
        match self.xlm_amount {
            Some(a) => a > 0,
            None => false,
        }
    }

    /// Returns true if a collectible reward is configured.
    pub fn has_nft(&self) -> (r: bool)
        ensures
            r == self.spec_has_nft(),
    {
        self.nft_contract.is_some()
    }

    /// Returns true if at least one reward kind is configured.
    pub fn is_valid(&self) -> (r: bool)
        ensures
            r == self.spec_is_valid(),
    {
        self.has_xlm() || self.has_nft()
    }
}

/// What `get_distribution_status` reports for a hunt/player pair.
#[derive(Clone, Copy, Debug, PartialEq, Eq)]
pub struct DistributionStatus {
    /// Whether any reward has been distributed to the pair.
    pub distributed: bool,
    /// Fungible amount distributed (0 if none).
    pub xlm_amount: i128,
    /// Identifier of the minted collectible, if one was minted.
    pub nft_id: Option<u64>,
}

/// The record persisted for each completed distribution; written at most once
/// per hunt/player pair.
#[derive(Clone, Copy, Debug, PartialEq, Eq)]
pub struct DistributionRecord {
    /// Fungible amount actually paid.
    pub xlm_amount: i128,
    /// Identifier of the minted collectible, if one was minted.
    pub nft_id: Option<u64>,
}

/// The immutable configuration of a reward pool, fixed at creation.
#[derive(Clone, Copy, Debug, PartialEq, Eq)]
pub struct RewardPoolConfig {
    /// The hunt creator who owns the pool; the only address allowed to fund it.
    pub creator: u64,
    /// Minimum fungible amount per distribution; 0 means no minimum.
    pub min_distribution_amount: i128,
}

/// The full state of a reward pool, as reported by `get_reward_pool`.
#[derive(Clone, Copy, Debug, PartialEq, Eq)]
pub struct RewardPoolStatus {
    /// Value currently available for distributions.
    pub balance: i128,
    /// Cumulative value deposited across all funding calls.
    pub total_deposited: i128,
    /// Cumulative value distributed to players.
    pub total_distributed: i128,
    /// Pool creator, the only authorized funder.
    pub creator: u64,
    /// Minimum fungible amount per distribution (0 = no minimum).
    pub min_distribution_amount: i128,
}

/// The outcome of a side-effect-free pool check, from `validate_pool`.
/// Balance and required amount are reported even when the check fails, so a
/// caller can diagnose a shortfall without a second query.
#[derive(Clone, Copy, Debug, PartialEq, Eq)]
pub struct ValidationResult {
    /// Whether the pool exists, the amount is positive, the balance covers it,
    /// and the pool's minimum (if any) is met.
    pub is_valid: bool,
    /// Pool balance at the time of the check (0 if the pool does not exist).
    pub balance: i128,
    /// The amount that was checked against.
    pub required: i128,
}

} // verus!
