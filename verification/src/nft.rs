//! The collectible-reward contract and the handler that reaches such
//! contracts by address.
//!
//! [`NftReward`] is one issuing contract: it mints uniquely numbered
//! collectibles, stores their data, and lets the owner update the mutable
//! display fields.  [`NftHandler`] stands for the cross-contract boundary the
//! distribution engine calls through: it routes a mint request to the
//! contract registered at an address and reports `NftMintFailed` when no
//! contract answers there.

use vstd::prelude::*;

use crate::auth::AuthContext;
use crate::errors::{NftErrorCode, RewardErrorCode};
use crate::keyed::{distinct_keys, find_by, lemma_find_by_index, lemma_find_by_none,
    lemma_find_by_push, lemma_find_by_update};

verus! {

/// Display metadata of a collectible (title, description, image reference).
/// The references may point at off-chain storage.
#[derive(Debug)]
pub struct NftMetadata {
    pub title: String,
    pub description: String,
    pub image_uri: String,
    /// Title of the hunt at the time of the mint, kept for display.
    pub hunt_title: String,
    /// Rarity tier: 0 = default, 1 = common up to 5 = legendary.
    pub rarity: u32,
    /// Custom tier for special categories (0 = none).
    pub tier: u32,
}

/// Everything `get_nft_metadata` reports about a collectible.
#[derive(Debug)]
pub struct NftMetadataResponse {
    pub nft_id: u64,
    pub hunt_id: u64,
    pub hunt_title: String,
    pub completion_timestamp: u64,
    pub completion_player: u64,
    pub current_owner: u64,
    pub title: String,
    pub description: String,
    pub image_uri: String,
    pub rarity: u32,
    pub tier: u32,
}

/// A collectible as the contract stores it.
#[derive(Debug)]
pub struct NftData {
    pub nft_id: u64,
    pub hunt_id: u64,
    pub owner: u64,
    /// The player who completed the hunt; kept even if ownership moves.
    pub completion_player: u64,
    pub metadata: NftMetadata,
    pub minted_at: u64,
}

/// Event recorded when a collectible is minted.
#[derive(Debug)]
pub struct NftMintedEvent {
    pub nft_id: u64,
    pub hunt_id: u64,
    pub owner: u64,
    pub metadata: NftMetadata,
    pub minted_at: u64,
}

/// Event recorded when a collectible's metadata is updated.
#[derive(Clone, Copy, Debug, PartialEq, Eq)]
pub struct NftMetadataUpdatedEvent {
    pub nft_id: u64,
    pub updater: u64,
}

/// One entry of a collectible contract's event log.
#[derive(Debug)]
pub enum NftEvent {
    Minted(NftMintedEvent),
    MetadataUpdated(NftMetadataUpdatedEvent),
}

/// The key of a stored collectible.
pub open spec fn nft_key() -> spec_fn(NftData) -> u64 {
    |n: NftData| n.nft_id
}

/// A collectible-issuing contract: a counter for fresh identifiers, the
/// collectibles minted so far, and the events it has recorded.
#[derive(Debug)]
pub struct NftReward {
    nfts: Vec<NftData>,
    counter: u64,
    events: Vec<NftEvent>,
}

/// The collectible that minting appends to the contract `c`.
pub open spec fn spec_minted_nft(
    c: NftReward,
    hunt_id: u64,
    player: u64,
    metadata: NftMetadata,
    minted_at: u64,
) -> NftData {
    NftData {
        nft_id: (c.spec_counter() + 1) as u64,
        hunt_id,
        owner: player,
        completion_player: player,
        metadata,
        minted_at,
    }
}

/// How a successful mint turns the contract `c0` into `c1`: the counter
/// advances by one, the new collectible is appended, and a minted event is
/// recorded.
pub open spec fn spec_mint_effect(
    c0: NftReward,
    c1: NftReward,
    hunt_id: u64,
    player: u64,
    metadata: NftMetadata,
    minted_at: u64,
) -> bool {
    &&& c1.spec_counter() == c0.spec_counter() + 1
    &&& c1.spec_nfts() == c0.spec_nfts().push(
        spec_minted_nft(c0, hunt_id, player, metadata, minted_at),
    )
    &&& c1.spec_events() == c0.spec_events().push(
        NftEvent::Minted(
            NftMintedEvent {
                nft_id: (c0.spec_counter() + 1) as u64,
                hunt_id,
                owner: player,
                metadata,
                minted_at,
            },
        ),
    )
}

/// What `get_nft_metadata` assembles from a stored collectible.
pub open spec fn spec_response_of(n: NftData) -> NftMetadataResponse {
    NftMetadataResponse {
        nft_id: n.nft_id,
        hunt_id: n.hunt_id,
        hunt_title: n.metadata.hunt_title,
        completion_timestamp: n.minted_at,
        completion_player: n.completion_player,
        current_owner: n.owner,
        title: n.metadata.title,
        description: n.metadata.description,
        image_uri: n.metadata.image_uri,
        rarity: n.metadata.rarity,
        tier: n.metadata.tier,
    }
}

/// The collectible `n` with its mutable display fields replaced.
pub open spec fn spec_updated_nft(
    n: NftData,
    new_description: String,
    new_image_uri: String,
) -> NftData {
    NftData {
        nft_id: n.nft_id,
        hunt_id: n.hunt_id,
        owner: n.owner,
        completion_player: n.completion_player,
        metadata: NftMetadata {
            title: n.metadata.title,
            description: new_description,
            image_uri: new_image_uri,
            hunt_title: n.metadata.hunt_title,
            rarity: n.metadata.rarity,
            tier: n.metadata.tier,
        },
        minted_at: n.minted_at,
    }
}

/// An exact copy of display metadata.
fn clone_metadata(m: &NftMetadata) -> (r: NftMetadata)
    ensures
        r == *m,
{
    NftMetadata {
        title: m.title.clone(),
        description: m.description.clone(),
        image_uri: m.image_uri.clone(),
        hunt_title: m.hunt_title.clone(),
        rarity: m.rarity,
        tier: m.tier,
    }
}

/// An exact copy of a stored collectible.
fn clone_nft(n: &NftData) -> (r: NftData)
    ensures
        r == *n,
{
    NftData {
        nft_id: n.nft_id,
        hunt_id: n.hunt_id,
        owner: n.owner,
        completion_player: n.completion_player,
        metadata: clone_metadata(&n.metadata),
        minted_at: n.minted_at,
    }
}

impl NftReward {
    /// The collectibles minted so far, in mint order.
    pub closed spec fn spec_nfts(self) -> Seq<NftData> {
        self.nfts@
    }

    /// How many collectibles have been minted; also the last identifier issued.
    pub closed spec fn spec_counter(self) -> u64 {
        self.counter
    }

    /// The events recorded so far, oldest first.
    pub closed spec fn spec_events(self) -> Seq<NftEvent> {
        self.events@
    }

    /// The stored collectible with identifier `nft_id`, if any.
    pub open spec fn spec_nft(self, nft_id: u64) -> Option<NftData> {
        find_by(self.spec_nfts(), nft_key(), nft_id)
    }

    /// Identifiers are unique, and never exceed the counter that issued them.
    pub closed spec fn wf(self) -> bool {
        &&& distinct_keys(self.nfts@, nft_key())
        &&& forall|i: int|
            0 <= i < self.nfts@.len() ==> 1 <= (#[trigger] self.nfts@[i]).nft_id
                <= self.counter
    }

    /// A contract that has minted nothing yet.
    pub fn new() -> (r: NftReward)
        ensures
            r.wf(),
            r.spec_counter() == 0,
            r.spec_nfts() == Seq::<NftData>::empty(),
            r.spec_events() == Seq::<NftEvent>::empty(),
    {
        NftReward { nfts: Vec::new(), counter: 0, events: Vec::new() }
    }

    /// Index of the collectible `nft_id`, tied to the spec-level lookup.
    fn find_index(&self, nft_id: u64) -> (r: Option<usize>)
        ensures
            match r {
                Some(i) => i < self.nfts@.len() && self.nfts@[i as int].nft_id == nft_id
                    && self.spec_nft(nft_id) == Some(self.nfts@[i as int]),
                None => self.spec_nft(nft_id) is None,
            },
    {
        let mut i: usize = 0;
        while i < self.nfts.len()
            invariant
                i <= self.nfts.len(),
                forall|j: int| 0 <= j < i ==> self.nfts@[j].nft_id != nft_id,
            decreases self.nfts.len() - i,
        {
            if self.nfts[i].nft_id == nft_id {
                proof {
                    lemma_find_by_index(self.nfts@, nft_key(), i as int);
                }
                return Some(i);
            }
            i += 1;
        }
        proof {
            lemma_find_by_none(self.nfts@, nft_key(), nft_id);
        }
        None
    }

    /// Mints a unique collectible commemorating `hunt_id` for
    /// `player_address`, records it under the next free identifier, and
    /// returns that identifier.
    pub fn mint_reward_nft(
        &mut self,
        hunt_id: u64,
        player_address: u64,
        metadata: NftMetadata,
        minted_at: u64,
    ) -> (nft_id: u64)
        requires
            old(self).wf(),
            old(self).spec_counter() < u64::MAX,
        ensures
            final(self).wf(),
            nft_id == old(self).spec_counter() + 1,
            spec_mint_effect(*old(self), *final(self), hunt_id, player_address, metadata, minted_at),
    {
        let nft_id = self.counter + 1;
        self.counter = nft_id;
        let nft_data = NftData {
            nft_id,
            hunt_id,
            owner: player_address,
            completion_player: player_address,
            metadata: clone_metadata(&metadata),
            minted_at,
        };
        proof {
            lemma_find_by_none(self.nfts@, nft_key(), nft_id);
            assert(find_by(self.nfts@, nft_key(), nft_id) is None);
        }
        let ghost nfts0 = self.nfts@;
        self.nfts.push(nft_data);
        proof {
            lemma_find_by_push(nfts0, nft_key(), self.nfts@.last());
            assert forall|i: int|
                0 <= i < self.nfts@.len() implies 1 <= (#[trigger] self.nfts@[i]).nft_id
                <= self.counter by {
                if i < nfts0.len() {
                    assert(self.nfts@[i] == nfts0[i]);
                }
            }
        }
        self.events.push(
            NftEvent::Minted(
                NftMintedEvent { nft_id, hunt_id, owner: player_address, metadata, minted_at },
            ),
        );
        nft_id
    }

    /// Returns the collectible with identifier `nft_id`, if it exists.
    pub fn get_nft(&self, nft_id: u64) -> (r: Option<NftData>)
        ensures
            r == self.spec_nft(nft_id),
    {
        match self.find_index(nft_id) {
            Some(i) => Some(clone_nft(&self.nfts[i])),
            None => None,
        }
    }

    /// Returns the full display metadata of the collectible `nft_id`,
    /// including hunt context and completion details, if it exists.
    pub fn get_nft_metadata(&self, nft_id: u64) -> (r: Option<NftMetadataResponse>)
        ensures
            r == match self.spec_nft(nft_id) {
                Some(n) => Some(spec_response_of(n)),
                None => None::<NftMetadataResponse>,
            },
    {
        match self.find_index(nft_id) {
            Some(i) => {
                let n = &self.nfts[i];
                Some(
                    NftMetadataResponse {
                        nft_id: n.nft_id,
                        hunt_id: n.hunt_id,
                        hunt_title: n.metadata.hunt_title.clone(),
                        completion_timestamp: n.minted_at,
                        completion_player: n.completion_player,
                        current_owner: n.owner,
                        title: n.metadata.title.clone(),
                        description: n.metadata.description.clone(),
                        image_uri: n.metadata.image_uri.clone(),
                        rarity: n.metadata.rarity,
                        tier: n.metadata.tier,
                    },
                )
            },
            None => None,
        }
    }

    /// Replaces the mutable display fields (description and image reference)
    /// of the collectible `nft_id`.  Only the current owner may do so; the
    /// title, hunt context and attributes stay immutable for collectibility.
    pub fn update_nft_metadata(
        &mut self,
        auth: &AuthContext,
        nft_id: u64,
        updater: u64,
        new_description: String,
        new_image_uri: String,
    ) -> (r: Result<(), NftErrorCode>)
        requires
            old(self).wf(),
            auth.spec_authorized(updater),
        ensures
            final(self).wf(),
            final(self).spec_counter() == old(self).spec_counter(),
            match old(self).spec_nft(nft_id) {
                None => r == Err::<(), NftErrorCode>(NftErrorCode::NftNotFound) && *final(self)
                    == *old(self),
                Some(n0) => {
                    if n0.owner != updater {
                        r == Err::<(), NftErrorCode>(NftErrorCode::NotOwner) && *final(self)
                            == *old(self)
                    } else {
                        &&& r == Ok::<(), NftErrorCode>(())
                        &&& final(self).spec_nft(nft_id) == Some(
                            spec_updated_nft(n0, new_description, new_image_uri),
                        )
                        &&& forall|x: u64|
                            x != nft_id ==> final(self).spec_nft(x) == old(self).spec_nft(x)
                        &&& final(self).spec_events() == old(self).spec_events().push(
                            NftEvent::MetadataUpdated(NftMetadataUpdatedEvent { nft_id, updater }),
                        )
                    }
                },
            },
    {
        let i = match self.find_index(nft_id) {
            Some(i) => i,
            None => {
                return Err(NftErrorCode::NftNotFound);
            },
        };
        if self.nfts[i].owner != updater {
            return Err(NftErrorCode::NotOwner);
        }
        let ghost nfts0 = self.nfts@;
        let mut n = self.nfts.remove(i);
        n.metadata.description = new_description;
        n.metadata.image_uri = new_image_uri;
        let ghost n2 = n;
        self.nfts.insert(i, n);
        proof {
            assert(self.nfts@ =~= nfts0.update(i as int, n2));
            lemma_find_by_update(nfts0, nft_key(), i as int, n2);
            assert forall|j: int|
                0 <= j < self.nfts@.len() implies 1 <= (#[trigger] self.nfts@[j]).nft_id
                <= self.counter by {
                if j != i {
                    assert(self.nfts@[j] == nfts0[j]);
                }
            }
        }
        self.events.push(
            NftEvent::MetadataUpdated(NftMetadataUpdatedEvent { nft_id, updater }),
        );
        Ok(())
    }

    /// Returns how many collectibles have been minted so far.
    pub fn total_supply(&self) -> (r: u64)
        ensures
            r == self.spec_counter(),
    {
        self.counter
    }

    /// Returns the current owner of the collectible `nft_id`, if it exists.
    pub fn owner_of(&self, nft_id: u64) -> (r: Option<u64>)
        ensures
            r == match self.spec_nft(nft_id) {
                Some(n) => Some(n.owner),
                None => None::<u64>,
            },
    {
        match self.find_index(nft_id) {
            Some(i) => Some(self.nfts[i].owner),
            None => None,
        }
    }

    /// The events recorded so far.
    pub fn events(&self) -> (r: &Vec<NftEvent>)
        ensures
            r@ == self.spec_events(),
    {
        &self.events
    }
}

/// A collectible contract and the address it answers at.
struct NftContractEntry {
    address: u64,
    contract: NftReward,
}

/// The key of a registered contract.
spec fn contract_key() -> spec_fn(NftContractEntry) -> u64 {
    |e: NftContractEntry| e.address
}

/// The mint handler: routes a mint request to the collectible contract
/// registered at an address, and reports `NftMintFailed` when none is.
pub struct NftHandler {
    contracts: Vec<NftContractEntry>,
}

impl NftHandler {
    /// The contract registered at `address`, if any.
    pub closed spec fn spec_contract(self, address: u64) -> Option<NftReward> {
        match find_by(self.contracts@, contract_key(), address) {
            Some(e) => Some(e.contract),
            None => None,
        }
    }

    /// The mint counter of the contract at `address`, if one is registered.
    pub open spec fn spec_contract_counter(self, address: u64) -> Option<u64> {
        match self.spec_contract(address) {
            Some(c) => Some(c.spec_counter()),
            None => None,
        }
    }

    /// Every address holds at most one contract, and each is well formed.
    pub closed spec fn wf(self) -> bool {
        &&& distinct_keys(self.contracts@, contract_key())
        &&& forall|i: int|
            0 <= i < self.contracts@.len() ==> (#[trigger] self.contracts@[i]).contract.wf()
    }

    /// A handler that reaches no contract yet.
    pub fn new() -> (r: NftHandler)
        ensures
            r.wf(),
            forall|a: u64| r.spec_contract(a) is None,
    {
        let r = NftHandler { contracts: Vec::new() };
        proof {
            assert forall|a: u64| r.spec_contract(a) is None by {
                assert(find_by(r.contracts@, contract_key(), a) is None);
            }
        }
        r
    }

    /// Index of the contract at `address`, tied to the spec-level lookup.
    fn find_index(&self, address: u64) -> (r: Option<usize>)
        ensures
            match r {
                Some(i) => i < self.contracts@.len()
                    && self.contracts@[i as int].address == address
                    && find_by(self.contracts@, contract_key(), address) == Some(
                    self.contracts@[i as int],
                ),
                None => find_by(self.contracts@, contract_key(), address) is None,
            },
    {
        let mut i: usize = 0;
        while i < self.contracts.len()
            invariant
                i <= self.contracts.len(),
                forall|j: int| 0 <= j < i ==> self.contracts@[j].address != address,
            decreases self.contracts.len() - i,
        {
            if self.contracts[i].address == address {
                proof {
                    lemma_find_by_index(self.contracts@, contract_key(), i as int);
                }
                return Some(i);
            }
            i += 1;
        }
        proof {
            lemma_find_by_none(self.contracts@, contract_key(), address);
        }
        None
    }

    /// Returns whether a contract is registered at `address`.
    pub fn is_registered(&self, address: u64) -> (r: bool)
        ensures
            r == (self.spec_contract(address) is Some),
    {
        self.find_index(address).is_some()
    }

    /// Makes the contract reachable at `address`.
    pub fn register(&mut self, address: u64, contract: NftReward)
        requires
            old(self).wf(),
            old(self).spec_contract(address) is None,
            contract.wf(),
        ensures
            final(self).wf(),
            final(self).spec_contract(address) == Some(contract),
            forall|a: u64| a != address ==> final(self).spec_contract(a) == old(
                self,
            ).spec_contract(a),
    {
        let ghost s0 = self.contracts@;
        let ghost entry = NftContractEntry { address, contract };
        self.contracts.push(NftContractEntry { address, contract });
        proof {
            lemma_find_by_push(s0, contract_key(), entry);
            assert forall|i: int|
                0 <= i < self.contracts@.len() implies (#[trigger] self.contracts@[i]).contract.wf()
                by {
                if i < s0.len() {
                    assert(self.contracts@[i] == s0[i]);
                }
            }
        }
    }

    /// The mint counter of the contract at `address`, if one is registered.
    pub fn contract_supply(&self, address: u64) -> (r: Option<u64>)
        ensures
            r == self.spec_contract_counter(address),
    {
        match self.find_index(address) {
            Some(i) => Some(self.contracts[i].contract.total_supply()),
            None => None,
        }
    }

    /// Returns the collectible `nft_id` of the contract at `contract_address`.
    pub fn get_nft(&self, contract_address: u64, nft_id: u64) -> (r: Option<NftData>)
        ensures
            r == match self.spec_contract(contract_address) {
                Some(c) => c.spec_nft(nft_id),
                None => None::<NftData>,
            },
    {
        match self.find_index(contract_address) {
            Some(i) => self.contracts[i].contract.get_nft(nft_id),
            None => None,
        }
    }

    /// Asks the contract at `contract_address` to mint a collectible for
    /// `player`.  Fails with `NftMintFailed`, changing nothing, when no
    /// contract is registered there or its identifiers are exhausted.
    pub fn mint(
        &mut self,
        contract_address: u64,
        hunt_id: u64,
        player: u64,
        metadata: NftMetadata,
        minted_at: u64,
    ) -> (r: Result<u64, RewardErrorCode>)
        requires
            old(self).wf(),
        ensures
            final(self).wf(),
            match old(self).spec_contract(contract_address) {
                None => r == Err::<u64, RewardErrorCode>(RewardErrorCode::NftMintFailed)
                    && *final(self) == *old(self),
                Some(c0) => {
                    if c0.spec_counter() == u64::MAX {
                        r == Err::<u64, RewardErrorCode>(RewardErrorCode::NftMintFailed)
                            && *final(self) == *old(self)
                    } else {
                        &&& r == Ok::<u64, RewardErrorCode>((c0.spec_counter() + 1) as u64)
                        &&& final(self).spec_contract(contract_address) matches Some(c1)
                            && spec_mint_effect(c0, c1, hunt_id, player, metadata, minted_at)
                        &&& forall|a: u64|
                            a != contract_address ==> final(self).spec_contract(a) == old(
                                self,
                            ).spec_contract(a)
                    }
                },
            },
    {
        let i = match self.find_index(contract_address) {
            Some(i) => i,
            None => {
                return Err(RewardErrorCode::NftMintFailed);
            },
        };
        if self.contracts[i].contract.total_supply() == u64::MAX {
            return Err(RewardErrorCode::NftMintFailed);
        }
        let ghost s0 = self.contracts@;
        let mut entry = self.contracts.remove(i);
        let id = entry.contract.mint_reward_nft(hunt_id, player, metadata, minted_at);
        let ghost e2 = entry;
        self.contracts.insert(i, entry);
        proof {
            assert(self.contracts@ =~= s0.update(i as int, e2));
            lemma_find_by_update(s0, contract_key(), i as int, e2);
            assert forall|j: int|
                0 <= j < self.contracts@.len() implies (#[trigger] self.contracts@[j]).contract.wf()
                by {
                if j != i {
                    assert(self.contracts@[j] == s0[j]);
                }
            }
        }
        Ok(id)
    }
}

} // verus!
