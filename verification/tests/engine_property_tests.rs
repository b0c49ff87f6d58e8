use reward_manager::auth::AuthContext;
use reward_manager::errors::{NftErrorCode, RewardErrorCode};
use reward_manager::ledger::TokenLedger;
use reward_manager::manager::{
    RewardEvent, RewardManager, RewardPoolCreatedEvent, RewardPoolFundedEvent,
    RewardsDistributedEvent,
};
use reward_manager::nft::{NftEvent, NftHandler, NftMetadata, NftReward};
use reward_manager::types::RewardConfig;

const CONTRACT: u64 = 1;
const TOKEN: u64 = 2;
const NFT_CONTRACT: u64 = 50;
const CREATOR: u64 = 10;
const PLAYER: u64 = 20;
const OTHER: u64 = 21;

fn setup() -> (RewardManager, TokenLedger, NftHandler, AuthContext) {
    let manager = RewardManager::new(CONTRACT);
    let ledger = TokenLedger::new();
    let handler = NftHandler::new();
    let mut auth = AuthContext::new();
    auth.grant(CREATOR);
    auth.grant(PLAYER);
    auth.grant(OTHER);
    (manager, ledger, handler, auth)
}

fn xlm_only_config(amount: i128) -> RewardConfig {
    RewardConfig {
        xlm_amount: Some(amount),
        nft_contract: None,
        nft_title: String::new(),
        nft_description: String::new(),
        nft_image_uri: String::new(),
        nft_hunt_title: String::new(),
        nft_rarity: 0,
        nft_tier: 0,
    }
}

fn full_config(amount: i128, nft_contract: Option<u64>) -> RewardConfig {
    RewardConfig {
        xlm_amount: Some(amount),
        nft_contract,
        nft_title: String::from("Golden Compass"),
        nft_description: String::from("Awarded for completing the hunt"),
        nft_image_uri: String::from("ipfs://compass"),
        nft_hunt_title: String::from("Harbor Hunt"),
        nft_rarity: 4,
        nft_tier: 1,
    }
}

// A failed collectible mint must leave the pool, the idempotency gate and the
// asset ledger exactly as they were, even though the fungible transfer alone
// would have succeeded.
#[test]
fn test_mint_failure_rolls_back_everything() {
    let (mut manager, mut ledger, mut handler, auth) = setup();

    ledger.mint(CREATOR, 10_000);
    manager.initialize(TOKEN);
    manager.create_reward_pool(&auth, CREATOR, 1, 0).unwrap();
    manager
        .fund_reward_pool(&auth, &mut ledger, CREATOR, 1, 10_000)
        .unwrap();

    // The transfer of 3_000 would succeed, but no contract answers at 99.
    assert!(!handler.is_registered(99));
    let config = full_config(3_000, Some(99));
    let result = manager.distribute_rewards(&mut ledger, &mut handler, 1, PLAYER, config, 7);
    assert_eq!(result, Err(RewardErrorCode::NftMintFailed));

    let status = manager.get_reward_pool(1).unwrap();
    assert_eq!(status.balance, 10_000);
    assert_eq!(status.total_distributed, 0);
    assert!(!manager.is_reward_distributed(1, PLAYER));
    assert_eq!(ledger.balance(PLAYER), 0);
    assert_eq!(ledger.balance(CONTRACT), 10_000);
}

// A combined fungible-and-collectible distribution pays, mints, and records
// both in one atomic step.
#[test]
fn test_distribute_rewards_with_nft() {
    let (mut manager, mut ledger, mut handler, auth) = setup();

    ledger.mint(CREATOR, 10_000);
    handler.register(NFT_CONTRACT, NftReward::new());
    manager.initialize(TOKEN);
    manager.create_reward_pool(&auth, CREATOR, 1, 0).unwrap();
    manager
        .fund_reward_pool(&auth, &mut ledger, CREATOR, 1, 10_000)
        .unwrap();

    let config = full_config(3_000, Some(NFT_CONTRACT));
    let result = manager.distribute_rewards(&mut ledger, &mut handler, 1, PLAYER, config, 777);
    assert!(result.is_ok());

    let status = manager.get_distribution_status(1, PLAYER);
    assert!(status.distributed);
    assert_eq!(status.xlm_amount, 3_000);
    assert_eq!(status.nft_id, Some(1));

    assert_eq!(ledger.balance(PLAYER), 3_000);
    assert_eq!(handler.contract_supply(NFT_CONTRACT), Some(1));

    let nft = handler.get_nft(NFT_CONTRACT, 1).unwrap();
    assert_eq!(nft.owner, PLAYER);
    assert_eq!(nft.completion_player, PLAYER);
    assert_eq!(nft.hunt_id, 1);
    assert_eq!(nft.minted_at, 777);
    assert_eq!(nft.metadata.title, "Golden Compass");
    assert_eq!(nft.metadata.hunt_title, "Harbor Hunt");
    assert_eq!(nft.metadata.rarity, 4);
    assert_eq!(nft.metadata.tier, 1);
}

// A collectible-only distribution mints without moving fungible value.
#[test]
fn test_distribute_nft_only_mints() {
    let (mut manager, mut ledger, mut handler, _auth) = setup();

    handler.register(NFT_CONTRACT, NftReward::new());
    manager.initialize(TOKEN);

    let config = RewardConfig {
        xlm_amount: None,
        nft_contract: Some(NFT_CONTRACT),
        nft_title: String::from("Badge"),
        nft_description: String::from("Badge of honor"),
        nft_image_uri: String::from("ipfs://badge"),
        nft_hunt_title: String::from("Hunt"),
        nft_rarity: 1,
        nft_tier: 0,
    };
    let result = manager.distribute_rewards(&mut ledger, &mut handler, 3, PLAYER, config, 1);
    assert!(result.is_ok());

    let status = manager.get_distribution_status(3, PLAYER);
    assert!(status.distributed);
    assert_eq!(status.xlm_amount, 0);
    assert_eq!(status.nft_id, Some(1));
    // No fungible value moved.
    assert_eq!(ledger.balance(PLAYER), 0);
}

// A request that carries a fungible amount beside its collectible must
// carry a positive one: a zero or negative amount is rejected with
// InvalidAmount before any asset moves, and nothing is minted.
#[test]
fn test_distribute_non_positive_amount_with_nft_fails() {
    let (mut manager, mut ledger, mut handler, auth) = setup();

    ledger.mint(CREATOR, 5_000);
    handler.register(NFT_CONTRACT, NftReward::new());
    manager.initialize(TOKEN);
    manager.create_reward_pool(&auth, CREATOR, 1, 0).unwrap();
    manager
        .fund_reward_pool(&auth, &mut ledger, CREATOR, 1, 5_000)
        .unwrap();

    let zero = full_config(0, Some(NFT_CONTRACT));
    let result = manager.distribute_rewards(&mut ledger, &mut handler, 1, PLAYER, zero, 0);
    assert_eq!(result, Err(RewardErrorCode::InvalidAmount));

    let negative = full_config(-5, Some(NFT_CONTRACT));
    let result = manager.distribute_rewards(&mut ledger, &mut handler, 1, PLAYER, negative, 0);
    assert_eq!(result, Err(RewardErrorCode::InvalidAmount));

    assert!(!manager.is_reward_distributed(1, PLAYER));
    assert_eq!(handler.contract_supply(NFT_CONTRACT), Some(0));
    assert_eq!(manager.get_pool_balance(1), 5_000);
    assert_eq!(ledger.balance(PLAYER), 0);
}

// A request that names no asset at all is rejected before anything is
// touched; the configured default issuer is stored but, as in the legacy
// flag, a request without its own issuer reference is not a collectible
// request.
#[test]
fn test_distribute_without_any_asset_fails() {
    let (mut manager, mut ledger, mut handler, _auth) = setup();

    handler.register(NFT_CONTRACT, NftReward::new());
    manager.initialize(TOKEN);
    manager.set_nft_reward_contract(NFT_CONTRACT);
    assert_eq!(manager.nft_reward_contract(), Some(NFT_CONTRACT));

    let config = RewardConfig {
        xlm_amount: None,
        nft_contract: None,
        nft_title: String::from("Badge"),
        nft_description: String::new(),
        nft_image_uri: String::new(),
        nft_hunt_title: String::new(),
        nft_rarity: 0,
        nft_tier: 0,
    };
    let result = manager.distribute_rewards(&mut ledger, &mut handler, 3, PLAYER, config, 1);
    assert_eq!(result, Err(RewardErrorCode::InvalidConfig));
    assert_eq!(handler.contract_supply(NFT_CONTRACT), Some(0));
}

// Funding fails with TransferFailed when the asset ledger refuses the
// transfer (the funder holds too little), and nothing changes.
#[test]
fn test_fund_reward_pool_transfer_failed() {
    let (mut manager, mut ledger, _handler, auth) = setup();

    ledger.mint(CREATOR, 500);
    manager.initialize(TOKEN);
    manager.create_reward_pool(&auth, CREATOR, 1, 0).unwrap();

    let result = manager.fund_reward_pool(&auth, &mut ledger, CREATOR, 1, 1_000);
    assert_eq!(result, Err(RewardErrorCode::TransferFailed));
    assert_eq!(manager.get_pool_balance(1), 0);
    assert_eq!(ledger.balance(CREATOR), 500);
    assert_eq!(ledger.balance(CONTRACT), 0);
}

// The legacy entry point accepts its collectible flag but never mints:
// a deliberate compatibility limitation.
#[test]
fn test_legacy_nft_flag_never_mints() {
    let (mut manager, mut ledger, mut handler, auth) = setup();

    ledger.mint(CREATOR, 5_000);
    handler.register(NFT_CONTRACT, NftReward::new());
    manager.initialize(TOKEN);
    manager.set_nft_reward_contract(NFT_CONTRACT);
    manager.create_reward_pool(&auth, CREATOR, 1, 0).unwrap();
    manager
        .fund_reward_pool(&auth, &mut ledger, CREATOR, 1, 5_000)
        .unwrap();

    let ok = manager.distribute_rewards_legacy(&mut ledger, &mut handler, PLAYER, 1, 2_000, true, 0);
    assert!(ok);

    let status = manager.get_distribution_status(1, PLAYER);
    assert!(status.distributed);
    assert_eq!(status.xlm_amount, 2_000);
    assert_eq!(status.nft_id, None);
    assert_eq!(handler.contract_supply(NFT_CONTRACT), Some(0));
}

// The legacy entry point reports failure as a bare false.
#[test]
fn test_legacy_zero_amount_fails() {
    let (mut manager, mut ledger, mut handler, _auth) = setup();

    manager.initialize(TOKEN);
    let ok = manager.distribute_rewards_legacy(&mut ledger, &mut handler, PLAYER, 1, 0, false, 0);
    assert!(!ok);
    assert!(!manager.is_reward_distributed(1, PLAYER));
}

// validate_pool is side-effect-free: any number of calls leaves balance,
// total_deposited and total_distributed untouched.
#[test]
fn test_validate_pool_is_side_effect_free() {
    let (mut manager, mut ledger, _handler, auth) = setup();

    ledger.mint(CREATOR, 4_000);
    manager.initialize(TOKEN);
    manager.create_reward_pool(&auth, CREATOR, 1, 100).unwrap();
    manager
        .fund_reward_pool(&auth, &mut ledger, CREATOR, 1, 4_000)
        .unwrap();

    let before = manager.get_reward_pool(1).unwrap();
    for amount in [0i128, 50, 100, 4_000, 5_000] {
        let v = manager.validate_pool(1, amount);
        assert_eq!(v.required, amount);
        assert_eq!(v.balance, 4_000);
    }
    let after = manager.get_reward_pool(1).unwrap();
    assert_eq!(before.balance, after.balance);
    assert_eq!(before.total_deposited, after.total_deposited);
    assert_eq!(before.total_distributed, after.total_distributed);
}

// Every successful state change records exactly one event with the values
// it acted on.
#[test]
fn test_event_log_records_lifecycle() {
    let (mut manager, mut ledger, mut handler, auth) = setup();

    ledger.mint(CREATOR, 9_000);
    manager.initialize(TOKEN);
    manager.create_reward_pool(&auth, CREATOR, 5, 200).unwrap();
    manager
        .fund_reward_pool(&auth, &mut ledger, CREATOR, 5, 9_000)
        .unwrap();
    manager
        .distribute_rewards(&mut ledger, &mut handler, 5, PLAYER, xlm_only_config(1_500), 0)
        .unwrap();

    let events = manager.events();
    assert_eq!(events.len(), 3);
    assert_eq!(
        events[0],
        RewardEvent::PoolCreated(RewardPoolCreatedEvent {
            hunt_id: 5,
            creator: CREATOR,
            min_distribution_amount: 200,
        })
    );
    assert_eq!(
        events[1],
        RewardEvent::PoolFunded(RewardPoolFundedEvent {
            hunt_id: 5,
            funder: CREATOR,
            amount: 9_000,
            new_balance: 9_000,
        })
    );
    assert_eq!(
        events[2],
        RewardEvent::Distributed(RewardsDistributedEvent {
            hunt_id: 5,
            player: PLAYER,
            xlm_amount: 1_500,
            nft_id: None,
        })
    );
}

// A failed call records no event.
#[test]
fn test_failed_calls_record_no_event() {
    let (mut manager, mut ledger, _handler, auth) = setup();

    manager.initialize(TOKEN);
    let _ = manager.fund_reward_pool(&auth, &mut ledger, CREATOR, 1, 1_000);
    let _ = manager.create_reward_pool(&auth, CREATOR, 1, -5);
    assert_eq!(manager.events().len(), 0);
}

// ========== the collectible contract itself ==========

fn badge_metadata() -> NftMetadata {
    NftMetadata {
        title: String::from("Badge"),
        description: String::from("First badge"),
        image_uri: String::from("ipfs://one"),
        hunt_title: String::from("Hunt One"),
        rarity: 2,
        tier: 0,
    }
}

#[test]
fn test_mint_reward_nft_assigns_sequential_ids() {
    let mut contract = NftReward::new();
    assert_eq!(contract.total_supply(), 0);

    let first = contract.mint_reward_nft(1, PLAYER, badge_metadata(), 100);
    let second = contract.mint_reward_nft(2, OTHER, badge_metadata(), 200);
    assert_eq!(first, 1);
    assert_eq!(second, 2);
    assert_eq!(contract.total_supply(), 2);
    assert_eq!(contract.owner_of(1), Some(PLAYER));
    assert_eq!(contract.owner_of(2), Some(OTHER));
    assert_eq!(contract.owner_of(3), None);
}

#[test]
fn test_get_nft_metadata_reports_all_fields() {
    let mut contract = NftReward::new();
    let id = contract.mint_reward_nft(9, PLAYER, badge_metadata(), 4_242);

    let response = contract.get_nft_metadata(id).unwrap();
    assert_eq!(response.nft_id, id);
    assert_eq!(response.hunt_id, 9);
    assert_eq!(response.hunt_title, "Hunt One");
    assert_eq!(response.completion_timestamp, 4_242);
    assert_eq!(response.completion_player, PLAYER);
    assert_eq!(response.current_owner, PLAYER);
    assert_eq!(response.title, "Badge");
    assert_eq!(response.description, "First badge");
    assert_eq!(response.image_uri, "ipfs://one");
    assert_eq!(response.rarity, 2);
    assert_eq!(response.tier, 0);

    assert!(contract.get_nft_metadata(id + 1).is_none());
}

#[test]
fn test_update_nft_metadata_owner_only() {
    let mut auth = AuthContext::new();
    auth.grant(PLAYER);
    auth.grant(OTHER);
    let mut contract = NftReward::new();
    let id = contract.mint_reward_nft(1, PLAYER, badge_metadata(), 1);

    // A non-owner may not update.
    let denied = contract.update_nft_metadata(
        &auth,
        id,
        OTHER,
        String::from("defaced"),
        String::from("ipfs://defaced"),
    );
    assert_eq!(denied, Err(NftErrorCode::NotOwner));

    // The owner may update description and image; the title stays.
    let updated = contract.update_nft_metadata(
        &auth,
        id,
        PLAYER,
        String::from("Polished badge"),
        String::from("ipfs://two"),
    );
    assert_eq!(updated, Ok(()));
    let response = contract.get_nft_metadata(id).unwrap();
    assert_eq!(response.description, "Polished badge");
    assert_eq!(response.image_uri, "ipfs://two");
    assert_eq!(response.title, "Badge");
}

#[test]
fn test_update_nft_metadata_not_found() {
    let mut auth = AuthContext::new();
    auth.grant(PLAYER);
    let mut contract = NftReward::new();

    let result = contract.update_nft_metadata(
        &auth,
        7,
        PLAYER,
        String::from("text"),
        String::from("uri"),
    );
    assert_eq!(result, Err(NftErrorCode::NftNotFound));
}

#[test]
fn test_get_nft_roundtrip() {
    let mut contract = NftReward::new();
    let id = contract.mint_reward_nft(3, PLAYER, badge_metadata(), 9);

    let nft = contract.get_nft(id).unwrap();
    assert_eq!(nft.nft_id, id);
    assert_eq!(nft.hunt_id, 3);
    assert_eq!(nft.owner, PLAYER);
    assert_eq!(nft.minted_at, 9);
    assert!(contract.get_nft(id + 1).is_none());
}

// ========== request classification ==========

#[test]
fn test_reward_config_classification() {
    let xlm = xlm_only_config(5);
    assert!(xlm.has_xlm());
    assert!(!xlm.has_nft());
    assert!(xlm.is_valid());

    let zero = xlm_only_config(0);
    assert!(!zero.has_xlm());
    assert!(!zero.is_valid());

    let negative = xlm_only_config(-3);
    assert!(!negative.has_xlm());
    assert!(!negative.is_valid());

    let nft_only = RewardConfig {
        xlm_amount: None,
        nft_contract: Some(NFT_CONTRACT),
        nft_title: String::new(),
        nft_description: String::new(),
        nft_image_uri: String::new(),
        nft_hunt_title: String::new(),
        nft_rarity: 0,
        nft_tier: 0,
    };
    assert!(!nft_only.has_xlm());
    assert!(nft_only.has_nft());
    assert!(nft_only.is_valid());
}

// A full walk through one pool's life with exact figures: fund ten
// thousand, pay three thousand, and the books show the rest.
#[test]
fn test_scenario_fund_then_distribute() {
    let (mut manager, mut ledger, mut handler, auth) = setup();
    assert_eq!(manager.contract_address(), CONTRACT);

    ledger.mint(CREATOR, 10_000);
    manager.initialize(TOKEN);
    manager.create_reward_pool(&auth, CREATOR, 1, 0).unwrap();
    manager
        .fund_reward_pool(&auth, &mut ledger, CREATOR, 1, 10_000)
        .unwrap();
    manager
        .distribute_rewards(&mut ledger, &mut handler, 1, PLAYER, xlm_only_config(3_000), 0)
        .unwrap();

    let status = manager.get_reward_pool(1).unwrap();
    assert_eq!(status.balance, 7_000);
    assert_eq!(status.total_distributed, 3_000);
    assert!(manager.is_reward_distributed(1, PLAYER));
}

// A refused over-distribution leaves the pool balance exactly as it was.
#[test]
fn test_insufficient_distribution_leaves_balance() {
    let (mut manager, mut ledger, mut handler, auth) = setup();

    ledger.mint(CREATOR, 1_000);
    manager.initialize(TOKEN);
    manager.create_reward_pool(&auth, CREATOR, 1, 0).unwrap();
    manager
        .fund_reward_pool(&auth, &mut ledger, CREATOR, 1, 1_000)
        .unwrap();

    let result =
        manager.distribute_rewards(&mut ledger, &mut handler, 1, PLAYER, xlm_only_config(5_000), 0);
    assert_eq!(result, Err(RewardErrorCode::InsufficientPool));
    assert_eq!(manager.get_pool_balance(1), 1_000);
}

// The issuing contract logs a minted event for each mint and an update
// event for each metadata change.
#[test]
fn test_nft_contract_event_log() {
    let mut auth = AuthContext::new();
    auth.grant(PLAYER);
    let mut contract = NftReward::new();
    let id = contract.mint_reward_nft(1, PLAYER, badge_metadata(), 5);
    contract
        .update_nft_metadata(&auth, id, PLAYER, String::from("new text"), String::from("uri"))
        .unwrap();

    let events = contract.events();
    assert_eq!(events.len(), 2);
    assert!(matches!(&events[0], NftEvent::Minted(e) if e.nft_id == id && e.minted_at == 5));
    assert!(matches!(&events[1], NftEvent::MetadataUpdated(e) if e.updater == PLAYER));
}

// ========== authorization context ==========

#[test]
fn test_auth_context_grants() {
    let mut auth = AuthContext::new();
    assert!(!auth.is_authorized(CREATOR));
    auth.grant(CREATOR);
    assert!(auth.is_authorized(CREATOR));
    assert!(!auth.is_authorized(PLAYER));
}
