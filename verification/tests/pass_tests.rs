//! One collection: initialisation, minting with payment, renewal, burning
//! after expiry, and the pass queries.

use pass_factory::error::ContractError;
use pass_factory::pass::execute::{burn_expired_pass, execute, instantiate, mint_pass,
    reject_base_operation, renew_pass};
use pass_factory::pass::msg::{InstantiateMsg, PassMsg, PassOutcome, PassQuery};
use pass_factory::pass::query::{get_user_pass, query, query_artist_info, query_config,
    query_validity};
use pass_factory::pass::state::PassCollection;
use pass_factory::payment::Coin;

const PASS_PRICE: u128 = 10;
const PASS_DURATION: u64 = 1200; // 20 minutes
const GRACE_PERIOD: u64 = 300; // 5 minutes
const USER: &str = "user";
const ARTIST: &str = "artist";
const PAYMENT_ADDR: &str = "payment_addr";
const COLLECTION_NAME: &str = "Test Pass";
const COLLECTION_SYMBOL: &str = "TEST";
const HOUSE_ROYALTY: u32 = 30;
const ARTIST_ROYALTY: u32 = 70;

fn init_msg() -> InstantiateMsg {
    InstantiateMsg {
        name: COLLECTION_NAME.to_string(),
        symbol: COLLECTION_SYMBOL.to_string(),
        artist: ARTIST.to_string(),
        minter: USER.to_string(),
        collection_info: "Test Collection".to_string(),
        pass_price: PASS_PRICE,
        pass_duration: PASS_DURATION,
        grace_period: GRACE_PERIOD,
        payment_address: PAYMENT_ADDR.to_string(),
        house_percentage: HOUSE_ROYALTY,
        artist_percentage: ARTIST_ROYALTY,
    }
}

fn setup_contract() -> PassCollection {
    instantiate(init_msg()).unwrap()
}

fn coins(amount: u128, denom: &str) -> Vec<Coin> {
    vec![Coin { denom: denom.to_string(), amount }]
}

#[test]
fn test_initialization() {
    let pc = instantiate(init_msg()).unwrap();

    let config = query_config(&pc);
    assert_eq!(config.name, COLLECTION_NAME);
    assert_eq!(config.symbol, COLLECTION_SYMBOL);
    assert_eq!(config.pass_price, PASS_PRICE);
    assert_eq!(config.pass_duration, PASS_DURATION);
    assert_eq!(config.grace_period, GRACE_PERIOD);
    assert_eq!(config.payment_address, PAYMENT_ADDR);
    assert_eq!(pc.tokens.len(), 0);
}

#[test]
fn test_mint_pass() {
    let mut pc = setup_contract();

    // Try minting without payment
    let err = mint_pass(&mut pc, 0, USER.to_string(), &vec![]).unwrap_err();
    assert_eq!(err, ContractError::PaymentMissing);
    assert_eq!(err.message(), "No uxion payment found");

    // Mint with the correct payment
    let receipt = mint_pass(&mut pc, 0, USER.to_string(), &coins(PASS_PRICE, "uxion"))
        .unwrap();
    let token_id = receipt.token_id.clone();
    assert_eq!(token_id, "test-1");

    // Query pass validity
    let validity = query_validity(&pc, 0, token_id.clone()).unwrap();
    assert!(validity.is_valid);
    assert!(!validity.in_grace_period);

    // Look the pass up by symbol and owner
    let pass_info = get_user_pass(
        &pc,
        0,
        "contract0".to_string(),
        &COLLECTION_SYMBOL.to_string(),
        &USER.to_string(),
    )
    .unwrap();
    println!("Pass Info: {:?}", pass_info);
    assert_eq!(pass_info.token_id, token_id);
    assert_eq!(pass_info.collection_name, COLLECTION_NAME);
    assert!(pass_info.is_valid);
}

#[test]
fn test_renew_pass() {
    let mut pc = setup_contract();

    // First mint a pass
    let receipt = mint_pass(&mut pc, 0, USER.to_string(), &coins(PASS_PRICE, "uxion"))
        .unwrap();
    let token_id = receipt.token_id;

    // Renew with the correct payment
    let renewed = renew_pass(
        &mut pc,
        &USER.to_string(),
        0,
        &token_id,
        &coins(PASS_PRICE, "uxion"),
    )
    .unwrap();
    assert_eq!(renewed.token_id, token_id);
    assert_eq!(renewed.new_expires_at, PASS_DURATION);
}

#[test]
fn test_burn_expired_pass() {
    let mut pc = setup_contract();

    // Mint a pass
    let receipt = mint_pass(&mut pc, 0, USER.to_string(), &coins(PASS_PRICE, "uxion"))
        .unwrap();
    let token_id = receipt.token_id;

    // Move time past expiration and grace period
    let now = PASS_DURATION + GRACE_PERIOD + 1;

    // Burn the expired pass
    burn_expired_pass(&mut pc, &USER.to_string(), now, &token_id).unwrap();
    assert_eq!(pc.tokens.len(), 0);
    assert_eq!(
        query_validity(&pc, now, token_id).unwrap_err(),
        ContractError::TokenNotFound
    );
}

#[test]
fn test_artist_info() {
    let mut pc = setup_contract();

    // Query artist info before any mints
    let info = query_artist_info(&pc);
    assert_eq!(info.artist, ARTIST);
    assert_eq!(info.total_passes, 0);
    assert_eq!(info.active_passes, 0);

    // Mint a pass
    mint_pass(&mut pc, 0, USER.to_string(), &coins(PASS_PRICE, "uxion")).unwrap();

    // Query updated artist info
    let info = query_artist_info(&pc);
    assert_eq!(info.artist, ARTIST);
    assert_eq!(info.total_passes, 1);
    assert_eq!(info.active_passes, 1);
}

#[test]
fn test_pass_flow() {
    let user1 = "user1".to_string();
    let user2 = "user2".to_string();

    let mut pc = instantiate(InstantiateMsg {
        name: "Test Pass".to_string(),
        symbol: COLLECTION_SYMBOL.to_string(),
        artist: ARTIST.to_string(),
        minter: user1.clone(),
        collection_info: "Test Collection".to_string(),
        pass_price: PASS_PRICE,
        pass_duration: PASS_DURATION,
        grace_period: GRACE_PERIOD,
        payment_address: PAYMENT_ADDR.to_string(),
        house_percentage: HOUSE_ROYALTY,
        artist_percentage: ARTIST_ROYALTY,
    })
    .unwrap();

    let config = query_config(&pc);
    println!("Pass Price: {}", config.pass_price);
    println!("Pass Duration: {}", config.pass_duration);
    println!("Grace Period: {}", config.grace_period);

    // User 1 mints first
    let r1 = mint_pass(&mut pc, 0, user1.clone(), &coins(PASS_PRICE, "uxion")).unwrap();
    println!("User1 minted pass {}", r1.token_id);
    assert_eq!(r1.token_id, "test-1");
    assert_eq!(r1.house_payment.to_address, PAYMENT_ADDR);
    assert_eq!(r1.artist_payment.to_address, ARTIST);
    assert_eq!(r1.house_payment.amount + r1.artist_payment.amount, PASS_PRICE);

    // User 2 mints next
    let r2 = mint_pass(&mut pc, 5, user2.clone(), &coins(PASS_PRICE, "uxion")).unwrap();
    println!("User2 minted pass {}", r2.token_id);
    assert_eq!(r2.token_id, "test-2");

    let v1 = query_validity(&pc, 10, "test-1".to_string()).unwrap();
    assert!(v1.is_valid);

    // User 1 renews their pass
    let renewed = renew_pass(
        &mut pc,
        &user1,
        100,
        &"test-1".to_string(),
        &coins(PASS_PRICE, "uxion"),
    )
    .unwrap();
    println!("User1 renewed pass {}", renewed.token_id);
    assert_eq!(renewed.new_expires_at, 100 + PASS_DURATION);

    // User 2's pass runs out; they burn it
    let late = 5 + PASS_DURATION + GRACE_PERIOD + 1;
    burn_expired_pass(&mut pc, &user2, late, &"test-2".to_string()).unwrap();
    println!("User2 burned pass test-2");

    // User 1's renewed pass is still around
    assert_eq!(pc.tokens.len(), 1);
    let info = query_artist_info(&pc);
    assert_eq!(info.total_passes, 1);
}

#[test]
fn renewal_authorization_and_missing_token() {
    let mut pc = setup_contract();
    let receipt = mint_pass(&mut pc, 0, "user1".to_string(), &coins(PASS_PRICE, "uxion"))
        .unwrap();

    // A stranger cannot renew
    let err = renew_pass(
        &mut pc,
        &"stranger".to_string(),
        0,
        &receipt.token_id,
        &coins(PASS_PRICE, "uxion"),
    )
    .unwrap_err();
    assert_eq!(err, ContractError::Unauthorized);

    // The collection minter can renew on the owner's behalf
    renew_pass(
        &mut pc,
        &USER.to_string(),
        0,
        &receipt.token_id,
        &coins(PASS_PRICE, "uxion"),
    )
    .unwrap();

    // An unknown identifier is reported as such
    let err = renew_pass(
        &mut pc,
        &USER.to_string(),
        0,
        &"test-99".to_string(),
        &coins(PASS_PRICE, "uxion"),
    )
    .unwrap_err();
    assert_eq!(err, ContractError::TokenNotFound);
}

#[test]
fn burn_rules() {
    let mut pc = setup_contract();
    let receipt = mint_pass(&mut pc, 0, "user1".to_string(), &coins(PASS_PRICE, "uxion"))
        .unwrap();

    // Not expired yet: refused for anyone
    let err = burn_expired_pass(&mut pc, &"user1".to_string(), 0, &receipt.token_id)
        .unwrap_err();
    assert_eq!(err, ContractError::PassNotExpired);

    // In the grace period: still refused
    let err = burn_expired_pass(
        &mut pc,
        &"user1".to_string(),
        PASS_DURATION + GRACE_PERIOD,
        &receipt.token_id,
    )
    .unwrap_err();
    assert_eq!(err, ContractError::PassNotExpired);

    // Expired, but the caller is neither owner nor minter
    let late = PASS_DURATION + GRACE_PERIOD + 1;
    let err = burn_expired_pass(&mut pc, &"stranger".to_string(), late, &receipt.token_id)
        .unwrap_err();
    assert_eq!(err, ContractError::Unauthorized);

    // Unknown identifier
    let err = burn_expired_pass(&mut pc, &"user1".to_string(), late, &"test-9".to_string())
        .unwrap_err();
    assert_eq!(err, ContractError::TokenNotFound);

    // Expired and burned by the owner
    burn_expired_pass(&mut pc, &"user1".to_string(), late, &receipt.token_id).unwrap();
    assert_eq!(pc.tokens.len(), 0);
}

#[test]
fn counter_exhaustion_stops_minting() {
    let mut pc = setup_contract();
    pc.token_counter = u64::MAX;
    let err = mint_pass(&mut pc, 0, USER.to_string(), &coins(PASS_PRICE, "uxion"))
        .unwrap_err();
    assert_eq!(err, ContractError::MaxSupplyReached);
    assert_eq!(pc.token_counter, u64::MAX);
    assert_eq!(pc.tokens.len(), 0);
}

#[test]
fn duplicate_identifier_is_refused() {
    let mut pc = setup_contract();
    mint_pass(&mut pc, 0, USER.to_string(), &coins(PASS_PRICE, "uxion")).unwrap();
    // Winding the counter back makes the next derived identifier collide
    pc.token_counter = 0;
    let err = mint_pass(&mut pc, 0, USER.to_string(), &coins(PASS_PRICE, "uxion"))
        .unwrap_err();
    assert_eq!(err, ContractError::TokenExists);
}

#[test]
fn execute_routes_commands() {
    let mut pc = setup_contract();

    let outcome = execute(
        &mut pc,
        &USER.to_string(),
        0,
        &coins(PASS_PRICE, "uxion"),
        PassMsg::MintPass { owner_address: USER.to_string() },
    )
    .unwrap();
    let token_id = match outcome {
        PassOutcome::Minted(rec) => rec.token_id,
        other => panic!("expected a mint receipt, got {:?}", other),
    };

    let outcome = execute(
        &mut pc,
        &USER.to_string(),
        7,
        &coins(PASS_PRICE, "uxion"),
        PassMsg::RenewPass { token_id: token_id.clone() },
    )
    .unwrap();
    match outcome {
        PassOutcome::Renewed(rec) => assert_eq!(rec.new_expires_at, 7 + PASS_DURATION),
        other => panic!("expected a renewal receipt, got {:?}", other),
    }

    let late = 7 + PASS_DURATION + GRACE_PERIOD + 1;
    let outcome = execute(
        &mut pc,
        &USER.to_string(),
        late,
        &vec![],
        PassMsg::BurnExpiredPass { token_id: token_id.clone() },
    )
    .unwrap();
    match outcome {
        PassOutcome::Burned { token_id: burned } => assert_eq!(burned, token_id),
        other => panic!("expected a burn outcome, got {:?}", other),
    }

    // Inherited base operations stay short-circuited: soulbound
    assert_eq!(reject_base_operation().unwrap_err(), ContractError::Soulbound);
}

#[test]
fn query_routes_pass_queries() {
    let mut pc = setup_contract();
    mint_pass(&mut pc, 0, USER.to_string(), &coins(PASS_PRICE, "uxion")).unwrap();

    let answer = query(
        &pc,
        0,
        "contract0".to_string(),
        PassQuery::CheckValidity { token_id: "test-1".to_string() },
    )
    .unwrap();
    match answer {
        pass_factory::pass::msg::PassQueryAnswer::Validity(v) => {
            assert!(v.is_valid);
            assert_eq!(v.expires_at, PASS_DURATION);
            assert_eq!(v.grace_period_end, Some(PASS_DURATION + GRACE_PERIOD));
        }
        other => panic!("unexpected answer {:?}", other),
    }

    let answer = query(
        &pc,
        0,
        "contract0".to_string(),
        PassQuery::GetUserPass {
            symbol: COLLECTION_SYMBOL.to_string(),
            owner: USER.to_string(),
        },
    )
    .unwrap();
    match answer {
        pass_factory::pass::msg::PassQueryAnswer::UserPass(p) => {
            assert_eq!(p.token_id, "test-1");
            assert_eq!(p.contract_address, "contract0");
        }
        other => panic!("unexpected answer {:?}", other),
    }

    // An owner with no pass under this symbol
    let err = get_user_pass(
        &pc,
        0,
        "contract0".to_string(),
        &COLLECTION_SYMBOL.to_string(),
        &"nobody".to_string(),
    )
    .unwrap_err();
    assert_eq!(err, ContractError::TokenNotFound);
}

#[test]
fn collection_instantiation_validates_inputs() {
    let mut msg = init_msg();
    msg.house_percentage = 31;
    assert_eq!(instantiate(msg).unwrap_err(), ContractError::InvalidRoyaltySum);

    let mut msg = init_msg();
    msg.symbol = "Test".to_string();
    assert_eq!(instantiate(msg).unwrap_err(), ContractError::InvalidSymbolFormat);
}
