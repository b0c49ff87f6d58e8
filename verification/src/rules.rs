//! The engine's decision rules over plain values.
//!
//! Each function here takes what an entry point has read from its store and
//! returns the decision the engine owes for it, in the exact order the
//! checks run.  The engine's own entry points decide through these
//! functions, and a host embedding the library — one that keeps the same
//! state in its own store and moves real assets — can decide through them
//! too, handing in plain values and acting on the result.

use vstd::prelude::*;

use crate::errors::RewardErrorCode;
use crate::types::{DistributionRecord, DistributionStatus, ValidationResult};

verus! {

/// The decision owed to a pool-creation request.
pub open spec fn spec_creation_decision(pool_exists: bool, min_distribution_amount: i128)
    -> Result<(), RewardErrorCode> {
    if min_distribution_amount < 0 {
        Err(RewardErrorCode::InvalidAmount)
    } else if pool_exists {
        Err(RewardErrorCode::PoolAlreadyExists)
    } else {
        Ok(())
    }
}

/// Decides a pool-creation request: the minimum may not be negative, and the
/// hunt may not already have a pool.
pub fn check_pool_creation(pool_exists: bool, min_distribution_amount: i128) -> (r: Result<
    (),
    RewardErrorCode,
>)
    ensures
        r == spec_creation_decision(pool_exists, min_distribution_amount),
{
    if min_distribution_amount < 0 {
        Err(RewardErrorCode::InvalidAmount)
    } else if pool_exists {
        Err(RewardErrorCode::PoolAlreadyExists)
    } else {
        Ok(())
    }
}

/// The decision owed to a funding request, before the asset transfer runs.
pub open spec fn spec_funding_decision(
    amount: i128,
    pool_exists: bool,
    funder_is_creator: bool,
    token_configured: bool,
) -> Result<(), RewardErrorCode> {
    if amount <= 0 {
        Err(RewardErrorCode::InvalidAmount)
    } else if !pool_exists {
        Err(RewardErrorCode::PoolNotFound)
    } else if !funder_is_creator {
        Err(RewardErrorCode::Unauthorized)
    } else if !token_configured {
        Err(RewardErrorCode::NotInitialized)
    } else {
        Ok(())
    }
}

/// Decides a funding request: a positive amount, an existing pool, the
/// creator as funder, and a configured asset ledger; the transfer itself
/// comes after.
pub fn check_funding(
    amount: i128,
    pool_exists: bool,
    funder_is_creator: bool,
    token_configured: bool,
) -> (r: Result<(), RewardErrorCode>)
    ensures
        r == spec_funding_decision(amount, pool_exists, funder_is_creator, token_configured),
{
    if amount <= 0 {
        Err(RewardErrorCode::InvalidAmount)
    } else if !pool_exists {
        Err(RewardErrorCode::PoolNotFound)
    } else if !funder_is_creator {
        Err(RewardErrorCode::Unauthorized)
    } else if !token_configured {
        Err(RewardErrorCode::NotInitialized)
    } else {
        Ok(())
    }
}

/// The pool books after a deposit of `amount`, or `None` when a 128-bit
/// counter would overflow.
pub open spec fn spec_funded_books(balance: i128, total_deposited: i128, amount: i128) -> Option<
    (i128, i128),
> {
    if balance + amount <= i128::MAX && total_deposited + amount <= i128::MAX {
        Some(((balance + amount) as i128, (total_deposited + amount) as i128))
    } else {
        None
    }
}

/// Adds a deposit to the pool books, refusing to overflow: the new balance
/// and the new cumulative total, or `None` when either would not fit.
pub fn apply_funding(balance: i128, total_deposited: i128, amount: i128) -> (r: Option<
    (i128, i128),
>)
    requires
        amount >= 0,
    ensures
        r == spec_funded_books(balance, total_deposited, amount),
{
    match (balance.checked_add(amount), total_deposited.checked_add(amount)) {
        (Some(b), Some(d)) => Some((b, d)),
        _ => None,
    }
}

/// What the distribution and validation rules need to know of a pool: its
/// balance and its configured per-distribution floor.
#[derive(Clone, Copy, Debug, PartialEq, Eq)]
pub struct PoolTerms {
    pub balance: i128,
    pub min_distribution_amount: i128,
}

/// Whether `amount` clears the pool's floor; a missing pool or a floor of
/// zero constrains nothing.
pub open spec fn spec_floor_ok(pool: Option<PoolTerms>, amount: i128) -> bool {
    match pool {
        Some(p) => !(p.min_distribution_amount > 0 && amount < p.min_distribution_amount),
        None => true,
    }
}

/// The balance the rules see: the pool's, or zero when there is none.
pub open spec fn spec_terms_balance(pool: Option<PoolTerms>) -> i128 {
    match pool {
        Some(p) => p.balance,
        None => 0,
    }
}

/// The decision owed to a distribution request, up to the point where the
/// collaborators act: on success, the fungible amount to pay (0 when only a
/// collectible is requested).  A request that carries a fungible amount at
/// all — even a non-positive one beside a collectible — must carry a
/// positive one.
pub open spec fn spec_distribution_decision(
    xlm_amount: Option<i128>,
    has_nft: bool,
    already_distributed: bool,
    pool: Option<PoolTerms>,
    token_configured: bool,
) -> Result<i128, RewardErrorCode> {
    let has_xlm = match xlm_amount {
        Some(a) => a > 0,
        None => false,
    };
    if !(has_xlm || has_nft) {
        Err(RewardErrorCode::InvalidConfig)
    } else if already_distributed {
        Err(RewardErrorCode::AlreadyDistributed)
    } else if xlm_amount is Some && !has_xlm {
        Err(RewardErrorCode::InvalidAmount)
    } else {
        let amount: i128 = if has_xlm {
            xlm_amount->Some_0
        } else {
            0
        };
        if has_xlm && !spec_floor_ok(pool, amount) {
            Err(RewardErrorCode::BelowMinimumAmount)
        } else if has_xlm && !token_configured {
            Err(RewardErrorCode::NotInitialized)
        } else if has_xlm && spec_terms_balance(pool) < amount {
            Err(RewardErrorCode::InsufficientPool)
        } else {
            Ok(amount)
        }
    }
}

/// Decides a distribution request before any asset moves: the request must
/// name an asset, the pair must not have been paid before, and a fungible
/// amount — wherever one is carried — must be positive and clear the pool's
/// floor, the configured ledger, and the pool balance.  On success, returns
/// the fungible amount to pay.
pub fn check_distribution(
    xlm_amount: Option<i128>,
    has_nft: bool,
    already_distributed: bool,
    pool: Option<PoolTerms>,
    token_configured: bool,
) -> (r: Result<i128, RewardErrorCode>)
    ensures
        r == spec_distribution_decision(
            xlm_amount,
            has_nft,
            already_distributed,
            pool,
            token_configured,
        ),
{
    let has_xlm = match xlm_amount {
        Some(a) => a > 0,
        None => false,
    };
    if !(has_xlm || has_nft) {
        return Err(RewardErrorCode::InvalidConfig);
    }
    if already_distributed {
        return Err(RewardErrorCode::AlreadyDistributed);
    }
    if xlm_amount.is_some() && !has_xlm {
        return Err(RewardErrorCode::InvalidAmount);
    }
    let amount: i128 = if has_xlm {
        match xlm_amount {
            Some(a) => a,
            None => 0,
        }
    } else {
        0
    };
    if has_xlm {
        match pool {
            Some(p) => {
                if p.min_distribution_amount > 0 && amount < p.min_distribution_amount {
                    return Err(RewardErrorCode::BelowMinimumAmount);
                }
            },
            None => {},
        }
        if !token_configured {
            return Err(RewardErrorCode::NotInitialized);
        }
        let pool_balance: i128 = match pool {
            Some(p) => p.balance,
            None => 0,
        };
        if pool_balance < amount {
            return Err(RewardErrorCode::InsufficientPool);
        }
    }
    Ok(amount)
}

/// The pool books after a payout of `amount`, or `None` when the balance
/// cannot cover it or a 128-bit counter would overflow.
pub open spec fn spec_distributed_books(balance: i128, total_distributed: i128, amount: i128)
    -> Option<(i128, i128)> {
    if balance - amount >= i128::MIN && total_distributed + amount <= i128::MAX {
        Some(((balance - amount) as i128, (total_distributed + amount) as i128))
    } else {
        None
    }
}

/// Takes a payout out of the pool books, refusing to overflow: the new
/// balance and the new cumulative total, or `None` when either would not fit.
pub fn apply_distribution(balance: i128, total_distributed: i128, amount: i128) -> (r: Option<
    (i128, i128),
>)
    requires
        amount >= 0,
    ensures
        r == spec_distributed_books(balance, total_distributed, amount),
{
    match (balance.checked_sub(amount), total_distributed.checked_add(amount)) {
        (Some(b), Some(d)) => Some((b, d)),
        _ => None,
    }
}

/// What a validation dry run reports for a pool's state and a required
/// amount (see `RewardManager::validate_pool`).
pub open spec fn spec_validation(pool: Option<PoolTerms>, required_amount: i128)
    -> ValidationResult {
    ValidationResult {
        is_valid: match pool {
            Some(p) => required_amount > 0 && p.balance >= required_amount
                && (p.min_distribution_amount == 0 || required_amount
                >= p.min_distribution_amount),
            None => false,
        },
        balance: match pool {
            Some(p) => p.balance,
            None => 0,
        },
        required: required_amount,
    }
}

/// Evaluates the side-effect-free pool check on a pool's state.
pub fn evaluate_validation(pool: Option<PoolTerms>, required_amount: i128) -> (r:
    ValidationResult)
    ensures
        r == spec_validation(pool, required_amount),
{
    match pool {
        Some(p) => {
            let meets_balance = required_amount > 0 && p.balance >= required_amount;
            let meets_minimum = p.min_distribution_amount == 0 || required_amount
                >= p.min_distribution_amount;
            ValidationResult {
                is_valid: meets_balance && meets_minimum,
                balance: p.balance,
                required: required_amount,
            }
        },
        None => ValidationResult { is_valid: false, balance: 0, required: required_amount },
    }
}

/// The status report for a stored flag and record (see
/// `RewardManager::get_distribution_status`).
pub open spec fn spec_status_report(distributed: bool, record: Option<DistributionRecord>)
    -> DistributionStatus {
    match record {
        Some(rec) => DistributionStatus {
            distributed,
            xlm_amount: rec.xlm_amount,
            nft_id: rec.nft_id,
        },
        None => DistributionStatus { distributed, xlm_amount: 0, nft_id: None },
    }
}

/// Assembles the distribution status from the idempotency flag and the
/// stored record; a missing record reports zero and no collectible.
pub fn evaluate_status(distributed: bool, record: Option<DistributionRecord>) -> (r:
    DistributionStatus)
    ensures
        r == spec_status_report(distributed, record),
{
    match record {
        Some(rec) => DistributionStatus {
            distributed,
            xlm_amount: rec.xlm_amount,
            nft_id: rec.nft_id,
        },
        None => DistributionStatus { distributed, xlm_amount: 0, nft_id: None },
    }
}

} // verus!
