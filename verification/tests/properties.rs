//! Scenario tests for the documented behaviors: caps, refunds, whitelist
//! rules, conservation of funds and supply, and exactly-once settlement.

use launchpad::{ContractError, CreateLaunchInput, LaunchStatus, LaunchpadStorage};

const OWNER: u64 = 1;
const CREATOR: u64 = 2;
const ALICE: u64 = 10;
const BOB: u64 = 11;

fn plain_input(now: u32) -> CreateLaunchInput {
    CreateLaunchInput {
        title: "Launch".to_string(),
        description: String::new(),
        token_address: 99,
        total_tokens: 1_000_000,
        price_per_token: 1,
        min_raise: 100,
        max_raise: 1000,
        max_per_wallet: 200,
        start_time: now + 10,
        end_time: now + 10000,
        whitelist_enabled: false,
        vesting_config: None,
    }
}

#[test]
fn successful_raise_scenario() {
    let mut s = LaunchpadStorage::new(OWNER, 200);
    let id = s.create_launch(CREATOR, 1, plain_input(1)).unwrap();
    s.start_launch(CREATOR, id).unwrap();

    // each payment of 300 is clipped to the per-wallet cap of 200
    let rc = s.contribute(ALICE, 300, 16, id).unwrap();
    assert_eq!(rc.accepted, 200);
    assert_eq!(rc.tokens, 200);
    assert_eq!(rc.refund, 100);
    let rc = s.contribute(BOB, 300, 16, id).unwrap();
    assert_eq!(rc.accepted, 200);

    s.finalize(10002, id).unwrap();
    assert_eq!(s.get_launch(id).unwrap().status, LaunchStatus::DistributionPending);

    // 2% fee on a raise of 400
    let paid = s.withdraw_funds(CREATOR, id).unwrap();
    assert_eq!(paid, 400 - 8);

    assert_eq!(s.claim_tokens(ALICE, 10002, id).unwrap(), 200);
    assert_eq!(s.claim_tokens(BOB, 10002, id).unwrap(), 200);
}

#[test]
fn failed_raise_triggers_refund() {
    let mut s = LaunchpadStorage::new(OWNER, 200);
    let mut input = plain_input(1);
    input.min_raise = 500;
    let id = s.create_launch(CREATOR, 1, input).unwrap();
    s.start_launch(CREATOR, id).unwrap();

    let rc = s.contribute(ALICE, 50, 16, id).unwrap();
    assert_eq!(rc.accepted, 50);

    s.finalize(10002, id).unwrap();
    assert_eq!(s.get_launch(id).unwrap().status, LaunchStatus::RefundAvailable);

    let refunded = s.claim_refund(ALICE, id).unwrap();
    assert_eq!(refunded, 50);
    assert_eq!(s.get_contribution(id, ALICE), 0);
    // the ledger is empty, so the launch is finalized
    assert_eq!(s.get_launch(id).unwrap().status, LaunchStatus::Finalized);

    // exactly once: the entry is gone, a second claim fails
    assert!(matches!(s.claim_refund(ALICE, id), Err(ContractError::InvalidState(_))));
}

#[test]
fn wallet_cap_enforcement() {
    let mut s = LaunchpadStorage::new(OWNER, 200);
    let mut input = plain_input(1);
    input.max_per_wallet = 50;
    let id = s.create_launch(CREATOR, 1, input).unwrap();
    s.start_launch(CREATOR, id).unwrap();

    let rc = s.contribute(ALICE, 50, 16, id).unwrap();
    assert_eq!(rc.accepted, 50);
    assert_eq!(rc.refund, 0);

    // the wallet is at its cap; 10 more must be rejected in full
    let r = s.contribute(ALICE, 10, 16, id);
    assert!(matches!(r, Err(ContractError::InvalidState(_))));
    assert_eq!(s.get_contribution(id, ALICE), 50);
}

#[test]
fn whitelist_enforcement() {
    let mut s = LaunchpadStorage::new(OWNER, 200);
    let mut input = plain_input(1);
    input.whitelist_enabled = true;
    let id = s.create_launch(CREATOR, 1, input).unwrap();
    s.add_to_whitelist(CREATOR, id, vec![ALICE]).unwrap();
    s.start_launch(CREATOR, id).unwrap();

    assert!(s.is_whitelisted(id, ALICE));
    assert!(!s.is_whitelisted(id, BOB));

    assert!(s.contribute(ALICE, 50, 16, id).is_ok());
    let r = s.contribute(BOB, 50, 16, id);
    assert!(matches!(r, Err(ContractError::InvalidState(_))));
    assert_eq!(s.get_contribution(id, BOB), 0);
}

#[test]
fn whitelist_is_idempotent() {
    let mut s = LaunchpadStorage::new(OWNER, 200);
    let mut input = plain_input(1);
    input.whitelist_enabled = true;
    let id = s.create_launch(CREATOR, 1, input).unwrap();

    s.add_to_whitelist(CREATOR, id, vec![ALICE, BOB]).unwrap();
    let before = s.get_launch(id).unwrap().whitelist.len();
    assert_eq!(before, 2);

    // admitting the same addresses again changes nothing
    s.add_to_whitelist(CREATOR, id, vec![ALICE, BOB]).unwrap();
    assert_eq!(s.get_launch(id).unwrap().whitelist.len(), 2);
    s.add_to_whitelist(CREATOR, id, vec![ALICE, ALICE, ALICE]).unwrap();
    assert_eq!(s.get_launch(id).unwrap().whitelist.len(), 2);
}

#[test]
fn conservation_of_supply_and_funds() {
    let mut s = LaunchpadStorage::new(OWNER, 200);
    let id = s.create_launch(CREATOR, 1, plain_input(1)).unwrap();
    s.start_launch(CREATOR, id).unwrap();

    s.contribute(ALICE, 120, 16, id).unwrap();
    s.contribute(BOB, 77, 20, id).unwrap();
    s.contribute(ALICE, 30, 25, id).unwrap();

    let l = s.get_launch(id).unwrap();
    let purchased: u128 = s.get_tokens_purchased(id, ALICE) + s.get_tokens_purchased(id, BOB);
    assert_eq!(l.tokens_remaining + purchased, l.total_tokens);
    let contributions: u128 = s.get_contribution(id, ALICE) + s.get_contribution(id, BOB);
    assert_eq!(l.total_raised, contributions);
    // contributing twice accumulates
    assert_eq!(s.get_contribution(id, ALICE), 150);
    assert_eq!(s.get_contributors(id), vec![ALICE, BOB]);
}

#[test]
fn token_supply_cap_binds_and_refunds_change() {
    let mut s = LaunchpadStorage::new(OWNER, 0);
    let input = CreateLaunchInput {
        title: "Tiny".to_string(),
        description: String::new(),
        token_address: 99,
        total_tokens: 10,
        price_per_token: 3,
        min_raise: 0,
        max_raise: 30,
        max_per_wallet: 30,
        start_time: 11,
        end_time: 10001,
        whitelist_enabled: false,
        vesting_config: None,
    };
    let id = s.create_launch(CREATOR, 1, input).unwrap();
    s.start_launch(CREATOR, id).unwrap();

    // 25 buys 8 whole tokens at a price of 3; only 24 is kept
    let rc = s.contribute(ALICE, 25, 16, id).unwrap();
    assert_eq!(rc.tokens, 8);
    assert_eq!(rc.accepted, 24);
    assert_eq!(rc.refund, 1);
    assert!(!rc.now_fully_subscribed);

    // only 2 tokens remain; the raise cap leaves 6, which buys exactly them
    let rc = s.contribute(BOB, 25, 16, id).unwrap();
    assert_eq!(rc.tokens, 2);
    assert_eq!(rc.accepted, 6);
    assert_eq!(rc.refund, 19);
    assert!(rc.now_fully_subscribed);

    let l = s.get_launch(id).unwrap();
    assert_eq!(l.tokens_remaining, 0);
    assert_eq!(l.total_raised, 30);

    // a fully subscribed launch may be finalized before its end time
    assert!(s.finalize(20, id).is_ok());
}

#[test]
fn owner_cancel_opens_refunds() {
    let mut s = LaunchpadStorage::new(OWNER, 200);
    let id = s.create_launch(CREATOR, 1, plain_input(1)).unwrap();
    s.start_launch(CREATOR, id).unwrap();
    s.contribute(ALICE, 40, 16, id).unwrap();

    // the creator may no longer cancel once the launch is active
    assert!(matches!(s.cancel_launch(CREATOR, id), Err(ContractError::InvalidState(_))));

    // the owner may, and raised funds open the refund phase
    s.cancel_launch(OWNER, id).unwrap();
    assert_eq!(s.get_launch(id).unwrap().status, LaunchStatus::RefundAvailable);
    assert_eq!(s.claim_refund(ALICE, id).unwrap(), 40);
    assert_eq!(s.get_launch(id).unwrap().status, LaunchStatus::Finalized);
}

#[test]
fn cancel_without_raise_finalizes() {
    let mut s = LaunchpadStorage::new(OWNER, 200);
    let id = s.create_launch(CREATOR, 1, plain_input(1)).unwrap();
    s.cancel_launch(CREATOR, id).unwrap();
    assert_eq!(s.get_launch(id).unwrap().status, LaunchStatus::Finalized);
}

#[test]
fn creator_launches_query() {
    let mut s = LaunchpadStorage::new(OWNER, 200);
    s.create_launch(CREATOR, 1, plain_input(1)).unwrap();
    s.create_launch(BOB, 1, plain_input(1)).unwrap();
    s.create_launch(CREATOR, 1, plain_input(1)).unwrap();

    let mine = s.get_creator_launches(CREATOR);
    assert_eq!(mine.len(), 2);
    assert_eq!(mine[0].id, 0);
    assert_eq!(mine[1].id, 2);
    assert_eq!(s.get_creator_launches(ALICE).len(), 0);
    assert_eq!(s.get_launch_count(), 3);
}
