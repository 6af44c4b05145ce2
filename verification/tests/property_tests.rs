//! Scenario tests for the payment split, the lifecycle windows and the
//! character-level helpers.

use pass_factory::error::ContractError;
use pass_factory::pass::execute::{instantiate, mint_pass, renew_pass};
use pass_factory::pass::msg::InstantiateMsg;
use pass_factory::pass::query::query_validity;
use pass_factory::pass::state::{PassCollection, PassExtension, PassStatus};
use pass_factory::payment::{settlement_denom, split, validate_payment, Coin};
use pass_factory::text::{lower_ascii, starts_with, symbol_ok, u64_to_dec};

const PASS_PRICE: u128 = 10;
const PASS_DURATION: u64 = 1200;
const GRACE_PERIOD: u64 = 300;

fn setup_collection() -> PassCollection {
    instantiate(InstantiateMsg {
        name: "Test Pass".to_string(),
        symbol: "TEST".to_string(),
        artist: "artist".to_string(),
        minter: "minter".to_string(),
        collection_info: "Test Collection".to_string(),
        pass_price: PASS_PRICE,
        pass_duration: PASS_DURATION,
        grace_period: GRACE_PERIOD,
        payment_address: "payment_addr".to_string(),
        house_percentage: 30,
        artist_percentage: 70,
    })
    .unwrap()
}

fn coins(amount: u128, denom: &str) -> Vec<Coin> {
    vec![Coin { denom: denom.to_string(), amount }]
}

#[test]
fn split_is_exact() {
    // price 10, house 30% -> house 3, artist 7, sum 10
    assert_eq!(split(10, 30), (3, 7));
    assert_eq!(split(0, 30), (0, 0));
    assert_eq!(split(10, 0), (0, 10));
    assert_eq!(split(10, 100), (10, 0));
    assert_eq!(split(999, 33), (329, 670));
    assert_eq!(split(1, 50), (0, 1));
    // no unit lost and none invented, whatever the rounding
    for gross in [0u128, 1, 7, 99, 100, 101, 12345, u128::MAX] {
        for pct in [0u32, 1, 33, 50, 99, 100] {
            let (house, artist) = split(gross, pct);
            assert_eq!(house + artist, gross);
            assert_eq!(house, gross / 100 * pct as u128 + gross % 100 * pct as u128 / 100);
        }
    }
}

#[test]
fn mint_splits_payment_exactly() {
    // Scenario: price = 10, house 30% -> house 3, artist 7
    let mut pc = setup_collection();
    let receipt = mint_pass(&mut pc, 0, "user".to_string(), &coins(10, "uxion")).unwrap();
    assert_eq!(receipt.house_payment.amount, 3);
    assert_eq!(receipt.artist_payment.amount, 7);
    assert_eq!(
        receipt.house_payment.amount + receipt.artist_payment.amount,
        10
    );
    assert_eq!(receipt.house_payment.to_address, "payment_addr");
    assert_eq!(receipt.artist_payment.to_address, "artist");
    assert_eq!(receipt.house_payment.denom, "uxion");
}

#[test]
fn overpayment_is_absorbed_into_the_split() {
    // Overpayment is accepted and folded whole into the split, not refunded
    let mut pc = setup_collection();
    let receipt = mint_pass(&mut pc, 0, "user".to_string(), &coins(100, "uxion")).unwrap();
    assert_eq!(receipt.house_payment.amount, 30);
    assert_eq!(receipt.artist_payment.amount, 70);
}

#[test]
fn payment_must_name_the_settlement_denomination() {
    // Scenario: funds present, but not in the settlement denomination
    let mut pc = setup_collection();
    let err = mint_pass(&mut pc, 0, "user".to_string(), &coins(100, "uatom")).unwrap_err();
    assert_eq!(err, ContractError::PaymentMissing);

    // Enough funds in the right denomination, among others
    let funds = vec![
        Coin { denom: "uatom".to_string(), amount: 5 },
        Coin { denom: "uxion".to_string(), amount: 10 },
        Coin { denom: "uxion".to_string(), amount: 999 },
    ];
    // The first coin in the settlement denomination counts
    assert_eq!(validate_payment(&funds, PASS_PRICE), Ok(10));
    mint_pass(&mut pc, 0, "user".to_string(), &funds).unwrap();

    // Too little in the right denomination
    let err = mint_pass(&mut pc, 0, "user2".to_string(), &coins(9, "uxion")).unwrap_err();
    assert_eq!(err, ContractError::PaymentInsufficient);

    assert_eq!(validate_payment(&vec![], PASS_PRICE), Err(ContractError::PaymentMissing));
    assert_eq!(settlement_denom(), "uxion");
}

#[test]
fn lifecycle_windows() {
    // Scenario: duration 1200, grace 300; mint at t=0 -> Active until 1200,
    // InGracePeriod through 1500, Expired at 1501
    let mut pc = setup_collection();
    let receipt = mint_pass(&mut pc, 0, "user".to_string(), &coins(10, "uxion")).unwrap();
    let id = receipt.token_id;

    let v = query_validity(&pc, 0, id.clone()).unwrap();
    assert!(v.is_valid && !v.in_grace_period);
    assert_eq!(v.expires_at, 1200);
    assert_eq!(v.grace_period_end, Some(1500));

    let v = query_validity(&pc, 1199, id.clone()).unwrap();
    assert!(v.is_valid && !v.in_grace_period);

    let v = query_validity(&pc, 1200, id.clone()).unwrap();
    assert!(v.is_valid && v.in_grace_period);

    let v = query_validity(&pc, 1500, id.clone()).unwrap();
    assert!(v.is_valid && v.in_grace_period);

    let v = query_validity(&pc, 1501, id.clone()).unwrap();
    assert!(!v.is_valid && !v.in_grace_period);
    assert_eq!(v.grace_period_end, None);
}

#[test]
fn status_derivation_on_the_bookkeeping() {
    let ext = PassExtension::new(0, 1200, 300);
    assert_eq!(ext.expires_at, 1200);
    assert_eq!(ext.grace_period_end, 1500);
    assert!(ext.is_active);
    assert_eq!(ext.times_renewed, 0);
    assert_eq!(ext.status(0), PassStatus::Active);
    assert_eq!(ext.status(1199), PassStatus::Active);
    assert_eq!(ext.status(1200), PassStatus::InGracePeriod);
    assert_eq!(ext.status(1500), PassStatus::InGracePeriod);
    assert_eq!(ext.status(1501), PassStatus::Expired);
}

#[test]
fn renewal_resets_the_window() {
    // Renewing early discards the unused remainder: the window restarts at
    // the renewal time, it is not extended from the prior expiry.
    let mut pc = setup_collection();
    let receipt = mint_pass(&mut pc, 0, "user".to_string(), &coins(10, "uxion")).unwrap();
    let id = receipt.token_id;

    let renewed = renew_pass(&mut pc, &"user".to_string(), 100, &id, &coins(10, "uxion"))
        .unwrap();
    assert_eq!(renewed.new_expires_at, 100 + PASS_DURATION); // not 1200 + 1200

    let v = query_validity(&pc, 100, id.clone()).unwrap();
    assert_eq!(v.expires_at, 1300);
    assert_eq!(v.grace_period_end, Some(1600));

    // The renewal counter steps once per renewal
    assert_eq!(pc.tokens[0].extension.times_renewed, 1);

    // A renewal during the grace period works the same way
    let renewed = renew_pass(&mut pc, &"user".to_string(), 1400, &id, &coins(10, "uxion"))
        .unwrap();
    assert_eq!(renewed.new_expires_at, 1400 + PASS_DURATION);
    assert_eq!(pc.tokens[0].extension.times_renewed, 2);

    // The renewal split pays the same two payees
    assert_eq!(renewed.house_payment.amount, 3);
    assert_eq!(renewed.artist_payment.amount, 7);
}

#[test]
fn symbol_format_rule() {
    assert!(symbol_ok("TEST"));
    assert!(symbol_ok("A"));
    assert!(symbol_ok("DRAKE"));
    assert!(!symbol_ok(""));
    assert!(!symbol_ok("test"));
    assert!(!symbol_ok("Test"));
    assert!(!symbol_ok("TEST "));
    assert!(!symbol_ok("TEST-1"));
    assert!(!symbol_ok("TEST1"));
    assert!(!symbol_ok("TE ST"));
}

#[test]
fn identifier_building_blocks() {
    assert_eq!(lower_ascii("TEST"), "test");
    assert_eq!(lower_ascii("ABCDEFGHIJKLMNOPQRSTUVWXYZ"), "abcdefghijklmnopqrstuvwxyz");
    assert_eq!(lower_ascii(""), "");

    assert_eq!(u64_to_dec(0), "0");
    assert_eq!(u64_to_dec(7), "7");
    assert_eq!(u64_to_dec(10), "10");
    assert_eq!(u64_to_dec(907), "907");
    assert_eq!(u64_to_dec(u64::MAX), "18446744073709551615");

    assert!(starts_with("test-1", "test-"));
    assert!(starts_with("test-1", ""));
    assert!(!starts_with("test-1", "team"));
    assert!(!starts_with("te", "test"));
}

#[test]
fn derived_identifiers_count_up() {
    let mut pc = setup_collection();
    for expected in ["test-1", "test-2", "test-3"] {
        let receipt = mint_pass(&mut pc, 0, "user".to_string(), &coins(10, "uxion"))
            .unwrap();
        assert_eq!(receipt.token_id, expected);
    }
    assert_eq!(pc.token_counter, 3);
    assert_eq!(pc.tokens.len(), 3);
}
