//! The reward-pool engine: pool lifecycle, funding, and the distribution
//! orchestrator.
//!
//! A [`RewardManager`] owns the persistent state of every per-hunt pool and
//! every completed distribution.  Each entry point either completes with all
//! of its effects, or fails with one error code and leaves every piece of
//! state — its own, the asset ledger's, and the collectible contracts' —
//! exactly as it was.  The decision each entry point takes is written once,
//! as a spec function, and the contract of the entry point holds the
//! implementation to it clause by clause.

use vstd::prelude::*;

use crate::auth::AuthContext;
use crate::errors::RewardErrorCode;
use crate::keyed::{distinct_keys, find_by, lemma_find_by_index, lemma_find_by_mem,
    lemma_find_by_none, lemma_find_by_push, lemma_find_by_update};
use crate::ledger::TokenLedger;
use crate::rules::{apply_distribution, apply_funding, check_distribution, check_funding,
    check_pool_creation, evaluate_status, evaluate_validation, spec_distribution_decision,
    spec_funding_decision, spec_status_report, spec_validation, PoolTerms};
use crate::nft::{spec_mint_effect, NftHandler, NftMetadata};
use crate::types::{DistributionRecord, DistributionStatus, RewardConfig, RewardPoolConfig,
    RewardPoolStatus, ValidationResult};

verus! {

/// Event recorded when a reward pool is created for a hunt.
#[derive(Clone, Copy, Debug, PartialEq, Eq)]
pub struct RewardPoolCreatedEvent {
    pub hunt_id: u64,
    pub creator: u64,
    pub min_distribution_amount: i128,
}

/// Event recorded when a reward pool is funded.
#[derive(Clone, Copy, Debug, PartialEq, Eq)]
pub struct RewardPoolFundedEvent {
    pub hunt_id: u64,
    pub funder: u64,
    pub amount: i128,
    pub new_balance: i128,
}

/// Event recorded when rewards are successfully distributed.
#[derive(Clone, Copy, Debug, PartialEq, Eq)]
pub struct RewardsDistributedEvent {
    pub hunt_id: u64,
    pub player: u64,
    pub xlm_amount: i128,
    pub nft_id: Option<u64>,
}

/// One entry of the engine's event log.
#[derive(Clone, Copy, Debug, PartialEq, Eq)]
pub enum RewardEvent {
    PoolCreated(RewardPoolCreatedEvent),
    PoolFunded(RewardPoolFundedEvent),
    Distributed(RewardsDistributedEvent),
}

/// A pool as the engine stores it: its immutable configuration and its
/// running totals, keyed by the hunt it belongs to.
#[derive(Clone, Copy, Debug)]
struct PoolEntry {
    hunt_id: u64,
    config: RewardPoolConfig,
    balance: i128,
    total_deposited: i128,
    total_distributed: i128,
}

/// A completed distribution, keyed by hunt and player.
#[derive(Clone, Copy, Debug)]
struct DistEntry {
    hunt_id: u64,
    player: u64,
    record: DistributionRecord,
}

/// The key of a stored pool.
spec fn pool_key() -> spec_fn(PoolEntry) -> u64 {
    |e: PoolEntry| e.hunt_id
}

/// The key of a stored distribution.
spec fn dist_key() -> spec_fn(DistEntry) -> (u64, u64) {
    |d: DistEntry| (d.hunt_id, d.player)
}

/// What a stored pool looks like from outside.
spec fn status_of(e: PoolEntry) -> RewardPoolStatus {
    RewardPoolStatus {
        balance: e.balance,
        total_deposited: e.total_deposited,
        total_distributed: e.total_distributed,
        creator: e.config.creator,
        min_distribution_amount: e.config.min_distribution_amount,
    }
}

/// A stored pool keeps its books: non-negative totals, a non-negative
/// minimum, and a balance that is exactly deposits minus distributions.
spec fn pool_entry_ok(e: PoolEntry) -> bool {
    &&& e.config.min_distribution_amount >= 0
    &&& e.total_deposited >= 0
    &&& e.total_distributed >= 0
    &&& e.balance >= 0
    &&& e.balance == e.total_deposited - e.total_distributed
}

/// The collectible metadata that a distribution request carries.
pub open spec fn spec_request_metadata(config: RewardConfig) -> NftMetadata {
    NftMetadata {
        title: config.nft_title,
        description: config.nft_description,
        image_uri: config.nft_image_uri,
        hunt_title: config.nft_hunt_title,
        rarity: config.nft_rarity,
        tier: config.nft_tier,
    }
}

/// The reward-pool engine: per-hunt pools, completed distributions, its
/// custodial ledger address, the configured collaborator addresses, and the
/// events it has recorded.
pub struct RewardManager {
    contract_address: u64,
    xlm_token: Option<u64>,
    nft_contract: Option<u64>,
    pools: Vec<PoolEntry>,
    dists: Vec<DistEntry>,
    events: Vec<RewardEvent>,
}

impl RewardManager {
    /// The engine's own (custodial) address on the asset ledger.
    pub closed spec fn spec_address(self) -> u64 {
        self.contract_address
    }

    /// The configured fungible-asset ledger reference, if initialized.
    pub closed spec fn spec_xlm_token(self) -> Option<u64> {
        self.xlm_token
    }

    /// The default collectible-issuing contract, if configured.
    pub closed spec fn spec_nft_contract(self) -> Option<u64> {
        self.nft_contract
    }

    /// The pool of `hunt_id`, if one was created.
    pub closed spec fn spec_pool(self, hunt_id: u64) -> Option<RewardPoolStatus> {
        match find_by(self.pools@, pool_key(), hunt_id) {
            Some(e) => Some(status_of(e)),
            None => None,
        }
    }

    /// The balance of the pool of `hunt_id`; zero if no pool was created.
    pub open spec fn spec_pool_balance(self, hunt_id: u64) -> i128 {
        match self.spec_pool(hunt_id) {
            Some(p) => p.balance,
            None => 0,
        }
    }

    /// What the pool of `hunt_id` has received in total; zero if none.
    pub open spec fn spec_pool_deposited(self, hunt_id: u64) -> i128 {
        match self.spec_pool(hunt_id) {
            Some(p) => p.total_deposited,
            None => 0,
        }
    }

    /// The distribution record of the hunt/player pair, if one was written.
    pub closed spec fn spec_record(self, hunt_id: u64, player: u64) -> Option<DistributionRecord> {
        match find_by(self.dists@, dist_key(), (hunt_id, player)) {
            Some(d) => Some(d.record),
            None => None,
        }
    }

    /// The idempotency gate: whether the pair was already paid out.
    pub open spec fn spec_distributed(self, hunt_id: u64, player: u64) -> bool {
        self.spec_record(hunt_id, player) is Some
    }

    /// The events recorded so far, oldest first.
    pub closed spec fn spec_events(self) -> Seq<RewardEvent> {
        self.events@
    }

    /// Well-formedness: one pool per hunt, one record per hunt/player pair,
    /// and every pool keeping its books (see `pool_entry_ok`).
    pub closed spec fn wf(self) -> bool {
        &&& distinct_keys(self.pools@, pool_key())
        &&& distinct_keys(self.dists@, dist_key())
        &&& forall|i: int| 0 <= i < self.pools@.len() ==> pool_entry_ok(#[trigger] self.pools@[i])
    }

    /// The rules' view of the pool of `hunt_id`: balance and floor.
    pub open spec fn spec_pool_terms(self, hunt_id: u64) -> Option<PoolTerms> {
        match self.spec_pool(hunt_id) {
            Some(p) => Some(
                PoolTerms { balance: p.balance, min_distribution_amount: p.min_distribution_amount },
            ),
            None => None,
        }
    }

    /// What `validate_pool` reports: the check is valid exactly when the pool
    /// exists, the amount is positive, the balance covers it, and the pool's
    /// minimum (if any) is met.
    pub open spec fn spec_validate(self, hunt_id: u64, required_amount: i128) -> ValidationResult {
        spec_validation(self.spec_pool_terms(hunt_id), required_amount)
    }

    /// What `get_distribution_status` reports: the stored record, or a
    /// zeroed result when the pair was never paid out.
    pub open spec fn spec_distribution_status(self, hunt_id: u64, player: u64)
        -> DistributionStatus {
        spec_status_report(self.spec_distributed(hunt_id, player), self.spec_record(hunt_id, player))
    }

    /// Whether the asset ledger would accept a transfer of `amount` from
    /// `from` to `to`: the payer holds enough, and the payee's balance
    /// would not overflow.
    pub open spec fn spec_transfer_ok(ledger: TokenLedger, from: u64, to: u64, amount: i128)
        -> bool {
        ledger.spec_balance(from) >= amount && (from == to || ledger.spec_balance(to) + amount
            <= i128::MAX)
    }

    /// The decision `fund_reward_pool` takes: the funding rules first, then
    /// whether the asset ledger accepts the transfer.
    pub open spec fn spec_fund_decision(
        self,
        ledger: TokenLedger,
        funder: u64,
        hunt_id: u64,
        amount: i128,
    ) -> Result<(), RewardErrorCode> {
        let pool = self.spec_pool(hunt_id);
        let funder_is_creator = match pool {
            Some(p) => funder == p.creator,
            None => false,
        };
        match spec_funding_decision(
            amount,
            pool is Some,
            funder_is_creator,
            self.spec_xlm_token() is Some,
        ) {
            Err(e) => Err(e),
            Ok(()) => {
                if !RewardManager::spec_transfer_ok(ledger, funder, self.spec_address(), amount) {
                    Err(RewardErrorCode::TransferFailed)
                } else {
                    Ok(())
                }
            },
        }
    }

    /// The collectible issuer a request resolves to: the per-request
    /// reference if given, else the configured default.
    pub open spec fn spec_resolved_issuer(self, config: RewardConfig) -> Option<u64> {
        match config.nft_contract {
            Some(c) => Some(c),
            None => self.spec_nft_contract(),
        }
    }

    /// The decision `distribute_rewards` takes: the distribution rules
    /// first, then whether the asset ledger accepts the payout, then whether
    /// the resolved collectible contract can mint.  On success, the fungible
    /// amount paid and the collectible identifier minted, if any.
    pub open spec fn spec_distribute_decision(
        self,
        ledger: TokenLedger,
        nft_handler: NftHandler,
        hunt_id: u64,
        player: u64,
        config: RewardConfig,
    ) -> Result<(i128, Option<u64>), RewardErrorCode> {
        match spec_distribution_decision(
            config.xlm_amount,
            config.spec_has_nft(),
            self.spec_distributed(hunt_id, player),
            self.spec_pool_terms(hunt_id),
            self.spec_xlm_token() is Some,
        ) {
            Err(e) => Err(e),
            Ok(amount) => {
                if amount > 0 && !RewardManager::spec_transfer_ok(
                    ledger,
                    self.spec_address(),
                    player,
                    amount,
                ) {
                    Err(RewardErrorCode::TransferFailed)
                } else if config.spec_has_nft() {
                    match self.spec_resolved_issuer(config) {
                        None => Err(RewardErrorCode::InvalidConfig),
                        Some(cid) => match nft_handler.spec_contract_counter(cid) {
                            None => Err(RewardErrorCode::NftMintFailed),
                            Some(counter) => {
                                if counter == u64::MAX {
                                    Err(RewardErrorCode::NftMintFailed)
                                } else {
                                    Ok((amount, Some((counter + 1) as u64)))
                                }
                            },
                        },
                    }
                } else {
                    Ok((amount, None))
                }
            },
        }
    }

    /// The decision the legacy entry point takes: a fungible-only request
    /// built from `xlm_amount`; on success, the amount paid.
    pub open spec fn spec_legacy_decision(
        self,
        ledger: TokenLedger,
        hunt_id: u64,
        player: u64,
        xlm_amount: i128,
    ) -> Result<i128, RewardErrorCode> {
        match spec_distribution_decision(
            if xlm_amount > 0 {
                Some(xlm_amount)
            } else {
                None
            },
            false,
            self.spec_distributed(hunt_id, player),
            self.spec_pool_terms(hunt_id),
            self.spec_xlm_token() is Some,
        ) {
            Err(e) => Err(e),
            Ok(amount) => {
                if !RewardManager::spec_transfer_ok(ledger, self.spec_address(), player, amount) {
                    Err(RewardErrorCode::TransferFailed)
                } else {
                    Ok(amount)
                }
            },
        }
    }

    /// An engine with no pools, no distributions and no collaborators
    /// configured, custodian of `contract_address` on the asset ledger.
    pub fn new(contract_address: u64) -> (r: RewardManager)
        ensures
            r.wf(),
            r.spec_address() == contract_address,
            r.spec_xlm_token() is None,
            r.spec_nft_contract() is None,
            forall|h: u64| r.spec_pool(h) is None,
            forall|h: u64, p: u64| r.spec_record(h, p) is None,
            r.spec_events() == Seq::<RewardEvent>::empty(),
    {
        let r = RewardManager {
            contract_address,
            xlm_token: None,
            nft_contract: None,
            pools: Vec::new(),
            dists: Vec::new(),
            events: Vec::new(),
        };
        proof {
            assert forall|h: u64| r.spec_pool(h) is None by {
                assert(find_by(r.pools@, pool_key(), h) is None);
            }
            assert forall|h: u64, p: u64| r.spec_record(h, p) is None by {
                assert(find_by(r.dists@, dist_key(), (h, p)) is None);
            }
        }
        r
    }

    /// Configures the fungible-asset ledger reference.  Must be called once
    /// before funds can move; calling it again replaces the reference.
    pub fn initialize(&mut self, xlm_token: u64)
        requires
            old(self).wf(),
        ensures
            final(self).wf(),
            final(self).spec_xlm_token() == Some(xlm_token),
            final(self).spec_address() == old(self).spec_address(),
            final(self).spec_nft_contract() == old(self).spec_nft_contract(),
            forall|h: u64| final(self).spec_pool(h) == old(self).spec_pool(h),
            forall|h: u64, p: u64| final(self).spec_record(h, p) == old(self).spec_record(h, p),
            final(self).spec_events() == old(self).spec_events(),
    {
        self.xlm_token = Some(xlm_token);
    }

    /// Configures the default collectible-issuing contract, used when a
    /// distribution request names none of its own.
    pub fn set_nft_reward_contract(&mut self, nft_contract: u64)
        requires
            old(self).wf(),
        ensures
            final(self).wf(),
            final(self).spec_nft_contract() == Some(nft_contract),
            final(self).spec_address() == old(self).spec_address(),
            final(self).spec_xlm_token() == old(self).spec_xlm_token(),
            forall|h: u64| final(self).spec_pool(h) == old(self).spec_pool(h),
            forall|h: u64, p: u64| final(self).spec_record(h, p) == old(self).spec_record(h, p),
            final(self).spec_events() == old(self).spec_events(),
    {
        self.nft_contract = Some(nft_contract);
    }

    /// The configured fungible-asset ledger reference.
    pub fn xlm_token(&self) -> (r: Option<u64>)
        ensures
            r == self.spec_xlm_token(),
    {
        self.xlm_token
    }

    /// The configured default collectible-issuing contract.
    pub fn nft_reward_contract(&self) -> (r: Option<u64>)
        ensures
            r == self.spec_nft_contract(),
    {
        self.nft_contract
    }

    /// The engine's custodial address on the asset ledger.
    pub fn contract_address(&self) -> (r: u64)
        ensures
            r == self.spec_address(),
    {
        self.contract_address
    }

    /// The events recorded so far.
    pub fn events(&self) -> (r: &Vec<RewardEvent>)
        ensures
            r@ == self.spec_events(),
    {
        &self.events
    }

    /// Index of the pool of `hunt_id`, tied to the spec-level lookup.
    fn find_pool_index(&self, hunt_id: u64) -> (r: Option<usize>)
        ensures
            match r {
                Some(i) => i < self.pools@.len() && self.pools@[i as int].hunt_id == hunt_id
                    && find_by(self.pools@, pool_key(), hunt_id) == Some(self.pools@[i as int])
                    && self.spec_pool(hunt_id) == Some(status_of(self.pools@[i as int])),
                None => self.spec_pool(hunt_id) is None,
            },
    {
        let mut i: usize = 0;
        while i < self.pools.len()
            invariant
                i <= self.pools.len(),
                forall|j: int| 0 <= j < i ==> self.pools@[j].hunt_id != hunt_id,
            decreases self.pools.len() - i,
        {
            if self.pools[i].hunt_id == hunt_id {
                proof {
                    lemma_find_by_index(self.pools@, pool_key(), i as int);
                }
                return Some(i);
            }
            i += 1;
        }
        proof {
            lemma_find_by_none(self.pools@, pool_key(), hunt_id);
        }
        None
    }

    /// Index of the distribution record of the pair, tied to the lookup.
    fn find_dist_index(&self, hunt_id: u64, player: u64) -> (r: Option<usize>)
        ensures
            match r {
                Some(i) => i < self.dists@.len() && self.dists@[i as int].hunt_id == hunt_id
                    && self.dists@[i as int].player == player && self.spec_record(hunt_id, player)
                    == Some(self.dists@[i as int].record),
                None => self.spec_record(hunt_id, player) is None,
            },
    {
        let mut i: usize = 0;
        while i < self.dists.len()
            invariant
                i <= self.dists.len(),
                forall|j: int|
                    0 <= j < i ==> !(self.dists@[j].hunt_id == hunt_id && self.dists@[j].player
                        == player),
            decreases self.dists.len() - i,
        {
            if self.dists[i].hunt_id == hunt_id && self.dists[i].player == player {
                proof {
                    lemma_find_by_index(self.dists@, dist_key(), i as int);
                }
                return Some(i);
            }
            i += 1;
        }
        proof {
            lemma_find_by_none(self.dists@, dist_key(), (hunt_id, player));
        }
        None
    }

    /// Creates the reward pool of `hunt_id`, owned and fundable only by
    /// `creator`, with the given minimum per distribution (0 = none).
    /// Requires `creator`'s authorization of this invocation.  Must happen
    /// before any funding or distribution for the hunt.
    pub fn create_reward_pool(
        &mut self,
        auth: &AuthContext,
        creator: u64,
        hunt_id: u64,
        min_distribution_amount: i128,
    ) -> (r: Result<(), RewardErrorCode>)
        requires
            old(self).wf(),
            auth.spec_authorized(creator),
        ensures
            final(self).wf(),
            final(self).spec_address() == old(self).spec_address(),
            final(self).spec_xlm_token() == old(self).spec_xlm_token(),
            final(self).spec_nft_contract() == old(self).spec_nft_contract(),
            forall|h: u64, p: u64| final(self).spec_record(h, p) == old(self).spec_record(h, p),
            min_distribution_amount < 0 ==> r == Err::<(), RewardErrorCode>(
                RewardErrorCode::InvalidAmount,
            ) && *final(self) == *old(self),
            min_distribution_amount >= 0 && old(self).spec_pool(hunt_id) is Some ==> r == Err::<
                (),
                RewardErrorCode,
            >(RewardErrorCode::PoolAlreadyExists) && *final(self) == *old(self),
            min_distribution_amount >= 0 && old(self).spec_pool(hunt_id) is None ==> {
                &&& r == Ok::<(), RewardErrorCode>(())
                &&& final(self).spec_pool(hunt_id) == Some(
                    RewardPoolStatus {
                        balance: 0,
                        total_deposited: 0,
                        total_distributed: 0,
                        creator,
                        min_distribution_amount,
                    },
                )
                &&& forall|h: u64|
                    h != hunt_id ==> final(self).spec_pool(h) == old(self).spec_pool(h)
                &&& final(self).spec_events() == old(self).spec_events().push(
                    RewardEvent::PoolCreated(
                        RewardPoolCreatedEvent { hunt_id, creator, min_distribution_amount },
                    ),
                )
            },
    {
        let pool_exists = self.find_pool_index(hunt_id).is_some();
        match check_pool_creation(pool_exists, min_distribution_amount) {
            Ok(()) => {},
            Err(e) => {
                return Err(e);
            },
        }
        let entry = PoolEntry {
            hunt_id,
            config: RewardPoolConfig { creator, min_distribution_amount },
            balance: 0,
            total_deposited: 0,
            total_distributed: 0,
        };
        let ghost pools0 = self.pools@;
        self.pools.push(entry);
        proof {
            lemma_find_by_push(pools0, pool_key(), entry);
            assert forall|i: int|
                0 <= i < self.pools@.len() implies pool_entry_ok(#[trigger] self.pools@[i]) by {
                if i < pools0.len() {
                    assert(self.pools@[i] == pools0[i]);
                }
            }
        }
        self.events.push(
            RewardEvent::PoolCreated(
                RewardPoolCreatedEvent { hunt_id, creator, min_distribution_amount },
            ),
        );
        Ok(())
    }

    /// Funds the pool of `hunt_id` with `amount`, moving the value from
    /// `funder` to the engine's custodial address on the asset ledger.
    /// Requires `funder`'s authorization of this invocation; only the pool's
    /// creator may fund it.  The cumulative-deposit bound is a machine
    /// limit: the running total is kept in a 128-bit signed counter.
    pub fn fund_reward_pool(
        &mut self,
        auth: &AuthContext,
        ledger: &mut TokenLedger,
        funder: u64,
        hunt_id: u64,
        amount: i128,
    ) -> (r: Result<(), RewardErrorCode>)
        requires
            old(self).wf(),
            old(ledger).wf(),
            auth.spec_authorized(funder),
            old(self).spec_pool_deposited(hunt_id) + amount <= i128::MAX,
        ensures
            final(self).wf(),
            final(ledger).wf(),
            final(self).spec_address() == old(self).spec_address(),
            final(self).spec_xlm_token() == old(self).spec_xlm_token(),
            final(self).spec_nft_contract() == old(self).spec_nft_contract(),
            forall|h: u64, p: u64| final(self).spec_record(h, p) == old(self).spec_record(h, p),
            match old(self).spec_fund_decision(*old(ledger), funder, hunt_id, amount) {
                Err(e) => r == Err::<(), RewardErrorCode>(e) && *final(self) == *old(self)
                    && *final(ledger) == *old(ledger),
                Ok(()) => ({
                    let p0 = old(self).spec_pool(hunt_id)->Some_0;
                    &&& r == Ok::<(), RewardErrorCode>(())
                    &&& final(self).spec_pool(hunt_id) == Some(
                        RewardPoolStatus {
                            balance: (p0.balance + amount) as i128,
                            total_deposited: (p0.total_deposited + amount) as i128,
                            total_distributed: p0.total_distributed,
                            creator: p0.creator,
                            min_distribution_amount: p0.min_distribution_amount,
                        },
                    )
                    &&& forall|h: u64|
                        h != hunt_id ==> final(self).spec_pool(h) == old(self).spec_pool(h)
                    &&& forall|a: u64|
                        final(ledger).spec_balance(a) == old(ledger).spec_balance(a) + (if a == old(
                            self,
                        ).spec_address() {
                            amount
                        } else {
                            0
                        }) - (if a == funder {
                            amount
                        } else {
                            0
                        })
                    &&& final(self).spec_events() == old(self).spec_events().push(
                        RewardEvent::PoolFunded(
                            RewardPoolFundedEvent {
                                hunt_id,
                                funder,
                                amount,
                                new_balance: (p0.balance + amount) as i128,
                            },
                        ),
                    )
                }),
            },
    {
        let pool_idx = self.find_pool_index(hunt_id);
        let (pool_exists, funder_is_creator) = match pool_idx {
            Some(i) => (true, funder == self.pools[i].config.creator),
            None => (false, false),
        };
        match check_funding(amount, pool_exists, funder_is_creator, self.xlm_token.is_some()) {
            Ok(()) => {},
            Err(e) => {
                return Err(e);
            },
        }
        let i = match pool_idx {
            Some(i) => i,
            None => {
                return Err(RewardErrorCode::PoolNotFound);
            },
        };
        let entry = self.pools[i];
        match ledger.transfer(funder, self.contract_address, amount) {
            Ok(()) => {},
            Err(e) => {
                return Err(e);
            },
        }
        proof {
            assert(pool_entry_ok(self.pools@[i as int]));
        }
        let mut e2 = entry;
        match apply_funding(entry.balance, entry.total_deposited, amount) {
            Some((new_balance, new_deposited)) => {
                e2.balance = new_balance;
                e2.total_deposited = new_deposited;
            },
            None => {
                return Err(RewardErrorCode::InvalidAmount);
            },
        }
        self.pools.set(i, e2);
        proof {
            lemma_find_by_update(old(self).pools@, pool_key(), i as int, e2);
            assert forall|j: int|
                0 <= j < self.pools@.len() implies pool_entry_ok(#[trigger] self.pools@[j]) by {
                if j != i {
                    assert(self.pools@[j] == old(self).pools@[j]);
                }
            }
        }
        self.events.push(
            RewardEvent::PoolFunded(
                RewardPoolFundedEvent { hunt_id, funder, amount, new_balance: e2.balance },
            ),
        );
        Ok(())
    }

    /// Returns the full status of the pool of `hunt_id`, or `None` if no
    /// pool was ever created for it — callers must not conflate "never
    /// created" with "zero balance".
    pub fn get_reward_pool(&self, hunt_id: u64) -> (r: Option<RewardPoolStatus>)
        ensures
            r == self.spec_pool(hunt_id),
    {
        match self.find_pool_index(hunt_id) {
            Some(i) => {
                let e = self.pools[i];
                Some(
                    RewardPoolStatus {
                        balance: e.balance,
                        total_deposited: e.total_deposited,
                        total_distributed: e.total_distributed,
                        creator: e.config.creator,
                        min_distribution_amount: e.config.min_distribution_amount,
                    },
                )
            },
            None => None,
        }
    }

    /// Side-effect-free dry run of a distribution of `required_amount`:
    /// reports whether it would be covered, along with the pool balance, so
    /// a caller can diagnose a shortfall without a second query.  Takes the
    /// engine by shared reference: no state can change.
    pub fn validate_pool(&self, hunt_id: u64, required_amount: i128) -> (r: ValidationResult)
        ensures
            r == self.spec_validate(hunt_id, required_amount),
    {
        evaluate_validation(self.pool_terms(hunt_id), required_amount)
    }

    /// Returns the balance of the pool of `hunt_id` (0 if never created).
    pub fn get_pool_balance(&self, hunt_id: u64) -> (r: i128)
        ensures
            r == self.spec_pool_balance(hunt_id),
    {
        match self.find_pool_index(hunt_id) {
            Some(i) => self.pools[i].balance,
            None => 0,
        }
    }

    /// The rules' view of the pool of `hunt_id`: balance and floor.
    fn pool_terms(&self, hunt_id: u64) -> (r: Option<PoolTerms>)
        ensures
            r == match self.spec_pool(hunt_id) {
                Some(p) => Some(
                    PoolTerms {
                        balance: p.balance,
                        min_distribution_amount: p.min_distribution_amount,
                    },
                ),
                None => None::<PoolTerms>,
            },
    {
        match self.find_pool_index(hunt_id) {
            Some(i) => {
                let e = self.pools[i];
                Some(
                    PoolTerms {
                        balance: e.balance,
                        min_distribution_amount: e.config.min_distribution_amount,
                    },
                )
            },
            None => None,
        }
    }

    /// Returns whether a reward was already distributed to the pair.
    pub fn is_reward_distributed(&self, hunt_id: u64, player: u64) -> (r: bool)
        ensures
            r == self.spec_distributed(hunt_id, player),
    {
        self.find_dist_index(hunt_id, player).is_some()
    }

    /// Returns the distribution status of the pair: the stored record, or a
    /// zeroed result (never an error) when nothing was distributed.
    pub fn get_distribution_status(&self, hunt_id: u64, player: u64) -> (r: DistributionStatus)
        ensures
            r == self.spec_distribution_status(hunt_id, player),
    {
        let record = match self.find_dist_index(hunt_id, player) {
            Some(i) => Some(self.dists[i].record),
            None => None,
        };
        evaluate_status(record.is_some(), record)
    }

    /// Distributes the requested rewards to `player_address` for `hunt_id`:
    /// pays the fungible amount from the engine's custodial address and/or
    /// asks the resolved collectible contract to mint, then writes the
    /// record, sets the idempotency gate, and records the event — all or
    /// nothing.  `now` is the ledger timestamp to stamp a minted collectible
    /// with.
    ///
    /// The checks run in the order of `spec_distribute_decision`; any
    /// failure leaves the engine, the asset ledger and every collectible
    /// contract unchanged.
    pub fn distribute_rewards(
        &mut self,
        ledger: &mut TokenLedger,
        nft_handler: &mut NftHandler,
        hunt_id: u64,
        player_address: u64,
        reward_config: RewardConfig,
        now: u64,
    ) -> (r: Result<(), RewardErrorCode>)
        requires
            old(self).wf(),
            old(ledger).wf(),
            old(nft_handler).wf(),
        ensures
            final(self).wf(),
            final(ledger).wf(),
            final(nft_handler).wf(),
            final(self).spec_address() == old(self).spec_address(),
            final(self).spec_xlm_token() == old(self).spec_xlm_token(),
            final(self).spec_nft_contract() == old(self).spec_nft_contract(),
            match old(self).spec_distribute_decision(
                *old(ledger),
                *old(nft_handler),
                hunt_id,
                player_address,
                reward_config,
            ) {
                Err(e) => r == Err::<(), RewardErrorCode>(e) && *final(self) == *old(self)
                    && *final(ledger) == *old(ledger) && *final(nft_handler) == *old(nft_handler),
                Ok((paid, minted)) => {
                    &&& r == Ok::<(), RewardErrorCode>(())
                    &&& final(self).spec_record(hunt_id, player_address) == Some(
                        DistributionRecord { xlm_amount: paid, nft_id: minted },
                    )
                    &&& final(self).spec_distributed(hunt_id, player_address)
                    &&& forall|h: u64, p: u64|
                        !(h == hunt_id && p == player_address) ==> final(self).spec_record(h, p)
                            == old(self).spec_record(h, p)
                    &&& (if paid > 0 {
                        let p0 = old(self).spec_pool(hunt_id)->Some_0;
                        &&& old(self).spec_pool(hunt_id) is Some
                        &&& final(self).spec_pool(hunt_id) == Some(
                            RewardPoolStatus {
                                balance: (p0.balance - paid) as i128,
                                total_deposited: p0.total_deposited,
                                total_distributed: (p0.total_distributed + paid) as i128,
                                creator: p0.creator,
                                min_distribution_amount: p0.min_distribution_amount,
                            },
                        )
                        &&& forall|h: u64|
                            h != hunt_id ==> final(self).spec_pool(h) == old(self).spec_pool(h)
                    } else {
                        forall|h: u64| final(self).spec_pool(h) == old(self).spec_pool(h)
                    })
                    &&& forall|a: u64|
                        final(ledger).spec_balance(a) == old(ledger).spec_balance(a) + (if a
                            == player_address {
                            paid
                        } else {
                            0
                        }) - (if a == old(self).spec_address() {
                            paid
                        } else {
                            0
                        })
                    &&& (match minted {
                        None => *final(nft_handler) == *old(nft_handler),
                        Some(id) => ({
                            let cid = old(self).spec_resolved_issuer(reward_config)->Some_0;
                            &&& final(nft_handler).spec_contract(cid) matches Some(c1)
                                && spec_mint_effect(
                                old(nft_handler).spec_contract(cid)->Some_0,
                                c1,
                                hunt_id,
                                player_address,
                                spec_request_metadata(reward_config),
                                now,
                            )
                            &&& forall|a: u64|
                                a != cid ==> final(nft_handler).spec_contract(a) == old(
                                    nft_handler,
                                ).spec_contract(a)
                        }),
                    })
                    &&& final(self).spec_events() == old(self).spec_events().push(
                        RewardEvent::Distributed(
                            RewardsDistributedEvent {
                                hunt_id,
                                player: player_address,
                                xlm_amount: paid,
                                nft_id: minted,
                            },
                        ),
                    )
                },
            },
    {
        let already = self.is_reward_distributed(hunt_id, player_address);
        let has_nft = reward_config.has_nft();
        let xlm_amount = match check_distribution(
            reward_config.xlm_amount,
            has_nft,
            already,
            self.pool_terms(hunt_id),
            self.xlm_token.is_some(),
        ) {
            Ok(amount) => amount,
            Err(e) => {
                return Err(e);
            },
        };
        if xlm_amount > 0 {
            // The fungible transfer itself is deferred until the collectible
            // mint (if any) has succeeded, so that a mint failure leaves the
            // ledger untouched.  Its success conditions are settled here, in
            // decision order, and nothing between here and the transfer can
            // change them.
            if ledger.balance(self.contract_address) < xlm_amount {
                return Err(RewardErrorCode::TransferFailed);
            }
            if player_address != self.contract_address {
                if ledger.balance(player_address) > i128::MAX - xlm_amount {
                    return Err(RewardErrorCode::TransferFailed);
                }
            }
        }
        let mut nft_id: Option<u64> = None;
        if has_nft {
            let cid = match reward_config.nft_contract {
                Some(c) => Some(c),
                None => self.nft_contract,
            };
            let cid = match cid {
                Some(c) => c,
                None => {
                    return Err(RewardErrorCode::InvalidConfig);
                },
            };
            let metadata = NftMetadata {
                title: reward_config.nft_title,
                description: reward_config.nft_description,
                image_uri: reward_config.nft_image_uri,
                hunt_title: reward_config.nft_hunt_title,
                rarity: reward_config.nft_rarity,
                tier: reward_config.nft_tier,
            };
            match nft_handler.mint(cid, hunt_id, player_address, metadata, now) {
                Ok(id) => {
                    nft_id = Some(id);
                },
                Err(e) => {
                    return Err(e);
                },
            }
        }
        if xlm_amount > 0 {
            match ledger.transfer(self.contract_address, player_address, xlm_amount) {
                Ok(()) => {},
                Err(_) => {
                    // Unreachable: the success conditions were checked above
                    // and nothing since has touched the ledger.
                    return Err(RewardErrorCode::TransferFailed);
                },
            }
            let i = match self.find_pool_index(hunt_id) {
                Some(i) => i,
                None => {
                    // Unreachable: a positive balance implies the pool exists.
                    return Err(RewardErrorCode::InsufficientPool);
                },
            };
            proof {
                assert(pool_entry_ok(self.pools@[i as int]));
            }
            let mut e2 = self.pools[i];
            match apply_distribution(e2.balance, e2.total_distributed, xlm_amount) {
                Some((new_balance, new_distributed)) => {
                    e2.balance = new_balance;
                    e2.total_distributed = new_distributed;
                },
                None => {
                    return Err(RewardErrorCode::InsufficientPool);
                },
            }
            let ghost pools0 = self.pools@;
            self.pools.set(i, e2);
            proof {
                lemma_find_by_update(pools0, pool_key(), i as int, e2);
                assert forall|j: int|
                    0 <= j < self.pools@.len() implies pool_entry_ok(#[trigger] self.pools@[j]) by {
                    if j != i {
                        assert(self.pools@[j] == pools0[j]);
                    }
                }
            }
        }
        let ghost dists0 = self.dists@;
        let entry = DistEntry {
            hunt_id,
            player: player_address,
            record: DistributionRecord { xlm_amount, nft_id },
        };
        self.dists.push(entry);
        proof {
            lemma_find_by_push(dists0, dist_key(), entry);
        }
        self.events.push(
            RewardEvent::Distributed(
                RewardsDistributedEvent {
                    hunt_id,
                    player: player_address,
                    xlm_amount,
                    nft_id,
                },
            ),
        );
        Ok(())
    }

    /// Legacy entry point: a fungible-only distribution of `xlm_amount`,
    /// reporting bare success or failure.  The collectible flag is accepted
    /// for interface compatibility but never mints anything — no metadata or
    /// issuing contract is available through this path; use
    /// `distribute_rewards` for collectible support.
    pub fn distribute_rewards_legacy(
        &mut self,
        ledger: &mut TokenLedger,
        nft_handler: &mut NftHandler,
        player: u64,
        hunt_id: u64,
        xlm_amount: i128,
        _nft_enabled: bool,
        now: u64,
    ) -> (r: bool)
        requires
            old(self).wf(),
            old(ledger).wf(),
            old(nft_handler).wf(),
        ensures
            final(self).wf(),
            final(ledger).wf(),
            final(nft_handler).wf(),
            *final(nft_handler) == *old(nft_handler),
            final(self).spec_address() == old(self).spec_address(),
            final(self).spec_xlm_token() == old(self).spec_xlm_token(),
            final(self).spec_nft_contract() == old(self).spec_nft_contract(),
            match old(self).spec_legacy_decision(*old(ledger), hunt_id, player, xlm_amount) {
                Err(_) => !r && *final(self) == *old(self) && *final(ledger) == *old(ledger),
                Ok(paid) => ({
                    let p0 = old(self).spec_pool(hunt_id)->Some_0;
                    &&& r
                    &&& final(self).spec_record(hunt_id, player) == Some(
                        DistributionRecord { xlm_amount: paid, nft_id: None },
                    )
                    &&& forall|h: u64, p: u64|
                        !(h == hunt_id && p == player) ==> final(self).spec_record(h, p) == old(
                            self,
                        ).spec_record(h, p)
                    &&& old(self).spec_pool(hunt_id) is Some
                    &&& final(self).spec_pool(hunt_id) == Some(
                        RewardPoolStatus {
                            balance: (p0.balance - paid) as i128,
                            total_deposited: p0.total_deposited,
                            total_distributed: (p0.total_distributed + paid) as i128,
                            creator: p0.creator,
                            min_distribution_amount: p0.min_distribution_amount,
                        },
                    )
                    &&& forall|h: u64|
                        h != hunt_id ==> final(self).spec_pool(h) == old(self).spec_pool(h)
                    &&& forall|a: u64|
                        final(ledger).spec_balance(a) == old(ledger).spec_balance(a) + (if a
                            == player {
                            paid
                        } else {
                            0
                        }) - (if a == old(self).spec_address() {
                            paid
                        } else {
                            0
                        })
                    &&& final(self).spec_events() == old(self).spec_events().push(
                        RewardEvent::Distributed(
                            RewardsDistributedEvent {
                                hunt_id,
                                player,
                                xlm_amount: paid,
                                nft_id: None,
                            },
                        ),
                    )
                }),
            },
    {
        let config = RewardConfig {
            xlm_amount: if xlm_amount > 0 {
                Some(xlm_amount)
            } else {
                None
            },
            nft_contract: None,
            nft_title: String::new(),
            nft_description: String::new(),
            nft_image_uri: String::new(),
            nft_hunt_title: String::new(),
            nft_rarity: 0,
            nft_tier: 0,
        };
        let result = self.distribute_rewards(
            ledger,
            nft_handler,
            hunt_id,
            player,
            config,
            now,
        );
        result.is_ok()
    }
}

/// Idempotency law: once a reward has been distributed to a hunt/player
/// pair, any further valid distribution request for that pair is refused
/// with `AlreadyDistributed` — and, by the contract of `distribute_rewards`,
/// a refused call leaves the engine, the asset ledger and every collectible
/// contract unchanged, so the player keeps exactly the first payout.
pub proof fn lemma_second_distribution_refused(
    m: RewardManager,
    ledger: TokenLedger,
    nft_handler: NftHandler,
    hunt_id: u64,
    player: u64,
    config: RewardConfig,
)
    requires
        m.spec_distributed(hunt_id, player),
        config.spec_is_valid(),
    ensures
        m.spec_distribute_decision(ledger, nft_handler, hunt_id, player, config) == Err::<
            (i128, Option<u64>),
            RewardErrorCode,
        >(RewardErrorCode::AlreadyDistributed),
{
}

/// Accounting law: in a well-formed engine, every pool's balance is exactly
/// its total deposits minus its total distributions, all three totals are
/// non-negative, and the configured minimum is non-negative.  Every entry
/// point requires and preserves well-formedness, so this holds after any
/// sequence of create, fund and distribute calls.
pub proof fn lemma_pool_accounting(m: RewardManager, hunt_id: u64)
    requires
        m.wf(),
    ensures
        match m.spec_pool(hunt_id) {
            Some(p) => p.balance == p.total_deposited - p.total_distributed && p.balance >= 0
                && p.total_deposited >= 0 && p.total_distributed >= 0
                && p.min_distribution_amount >= 0,
            None => true,
        },
{
    lemma_find_by_mem(m.pools@, pool_key(), hunt_id);
}

} // verus!
