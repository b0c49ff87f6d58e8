//! A verified escrow-and-payout engine for per-hunt reward pools.
//!
//! A creator deposits fungible value into the pool of a hunt, and a trusted
//! caller later triggers a payout (a fungible amount, a unique collectible,
//! or both) to a player at most once per hunt/player pair.  The engine keeps
//! the books of every pool (`balance`, `total_deposited`, `total_distributed`),
//! enforces creator-only funding, and guarantees that a failed step leaves
//! every piece of state exactly as it was.
//!
//! The collaborators that a ledger host would provide are modeled explicitly,
//! so that the whole engine is verifiable and testable on plain values:
//! [`auth::AuthContext`] stands for the host's authorization proofs,
//! [`ledger::TokenLedger`] for the external fungible-asset ledger, and
//! [`nft::NftHandler`] for the collectible-issuing contracts reachable by
//! address.

pub mod auth;
pub mod decimal;
pub mod errors;
pub mod hunt_errors;
pub mod keyed;
pub mod ledger;
pub mod manager;
pub mod nft;
pub mod rules;
pub mod types;
