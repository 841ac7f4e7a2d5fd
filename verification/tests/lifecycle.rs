//! Full-lifecycle tests: create, whitelist, contribute, finalize, claim,
//! refund, withdraw, pause.

use launchpad::{ContractError, CreateLaunchInput, LaunchStatus, LaunchpadStorage};

const OWNER: u64 = 100;
const CREATOR: u64 = 101;
const CONTRIBUTOR1: u64 = 102;
const CONTRIBUTOR2: u64 = 103;
const NON_WHITELISTED: u64 = 104;
const ANYONE: u64 = 105;

const ONE_VARA: u128 = 1_000_000_000_000;

const TOKEN_ADDRESS: u64 = 200;

/// The block at which each test begins.
const START_BLOCK: u32 = 1;

fn deploy_contract() -> LaunchpadStorage {
    // the platform is initialized with a default 2% fee (200 basis points)
    LaunchpadStorage::new(OWNER, 200)
}

fn create_test_launch_input(current_block: u32) -> CreateLaunchInput {
    CreateLaunchInput {
        title: "Test Token Launch".to_string(),
        description: "A test token launch for integration testing".to_string(),
        token_address: TOKEN_ADDRESS,
        total_tokens: 1_000_000 * ONE_VARA,
        price_per_token: ONE_VARA / 1000,
        min_raise: 100 * ONE_VARA,
        max_raise: 1000 * ONE_VARA,
        max_per_wallet: 200 * ONE_VARA,
        start_time: current_block + 10,
        end_time: current_block + 10000,
        whitelist_enabled: false,
        vesting_config: None,
    }
}

#[test]
fn test_contract_initialization() {
    let s = deploy_contract();
    assert_eq!(s.get_owner(), OWNER);
    assert!(!s.is_paused());
    assert_eq!(s.get_launch_count(), 0);
}

#[test]
fn test_create_launch() {
    let mut s = deploy_contract();
    let input = create_test_launch_input(START_BLOCK);
    let r = s.create_launch(CREATOR, START_BLOCK, input);
    assert!(r.is_ok(), "CreateLaunch should succeed");
}

#[test]
fn test_start_launch() {
    let mut s = deploy_contract();
    let input = create_test_launch_input(START_BLOCK);
    assert!(s.create_launch(CREATOR, START_BLOCK, input).is_ok());
    let launch_id: u64 = 0;
    let r = s.start_launch(CREATOR, launch_id);
    assert!(r.is_ok(), "StartLaunch should succeed");
}

#[test]
fn test_contribute() {
    let mut s = deploy_contract();
    let input = create_test_launch_input(START_BLOCK);
    s.create_launch(CREATOR, START_BLOCK, input).unwrap();
    let launch_id: u64 = 0;
    s.start_launch(CREATOR, launch_id).unwrap();
    // advance to start time
    let now = START_BLOCK + 15;
    let r = s.contribute(CONTRIBUTOR1, 50 * ONE_VARA, now, launch_id);
    assert!(r.is_ok(), "Contribute should succeed");
}

#[test]
fn test_whitelist_functionality() {
    let mut s = deploy_contract();
    let mut input = create_test_launch_input(START_BLOCK);
    input.whitelist_enabled = true;
    s.create_launch(CREATOR, START_BLOCK, input).unwrap();
    let launch_id: u64 = 0;

    let addresses: Vec<u64> = vec![CONTRIBUTOR1];
    let r = s.add_to_whitelist(CREATOR, launch_id, addresses);
    assert!(r.is_ok(), "AddToWhitelist should succeed");

    s.start_launch(CREATOR, launch_id).unwrap();
    let now = START_BLOCK + 15;

    let r = s.contribute(CONTRIBUTOR1, 50 * ONE_VARA, now, launch_id);
    assert!(r.is_ok(), "Whitelisted contributor should succeed");

    let r = s.contribute(NON_WHITELISTED, 50 * ONE_VARA, now, launch_id);
    assert!(r.is_err(), "Non-whitelisted contributor should fail");
}

#[test]
fn test_finalize_successful_launch() {
    let mut s = deploy_contract();
    let mut input = create_test_launch_input(START_BLOCK);
    input.min_raise = 50 * ONE_VARA;
    s.create_launch(CREATOR, START_BLOCK, input).unwrap();
    let launch_id: u64 = 0;
    s.start_launch(CREATOR, launch_id).unwrap();
    let now = START_BLOCK + 15;
    s.contribute(CONTRIBUTOR1, 100 * ONE_VARA, now, launch_id).unwrap();
    // advance past end time
    let after_end = START_BLOCK + 10015;
    let r = s.finalize(after_end, launch_id);
    assert!(r.is_ok(), "Finalize should succeed for successful launch");
}

#[test]
fn test_finalize_failed_launch() {
    let mut s = deploy_contract();
    let mut input = create_test_launch_input(START_BLOCK);
    input.min_raise = 500 * ONE_VARA;
    s.create_launch(CREATOR, START_BLOCK, input).unwrap();
    let launch_id: u64 = 0;
    s.start_launch(CREATOR, launch_id).unwrap();
    let now = START_BLOCK + 15;
    s.contribute(CONTRIBUTOR1, 50 * ONE_VARA, now, launch_id).unwrap();
    let after_end = START_BLOCK + 10015;
    let r = s.finalize(after_end, launch_id);
    assert!(r.is_ok(), "Finalize should succeed (marking launch as failed)");
}

#[test]
fn test_claim_refund() {
    let mut s = deploy_contract();
    let mut input = create_test_launch_input(START_BLOCK);
    input.min_raise = 500 * ONE_VARA;
    s.create_launch(CREATOR, START_BLOCK, input).unwrap();
    let launch_id: u64 = 0;
    s.start_launch(CREATOR, launch_id).unwrap();
    let now = START_BLOCK + 15;
    s.contribute(CONTRIBUTOR1, 50 * ONE_VARA, now, launch_id).unwrap();
    let after_end = START_BLOCK + 10015;
    s.finalize(after_end, launch_id).unwrap();
    let r = s.claim_refund(CONTRIBUTOR1, launch_id);
    assert!(r.is_ok(), "ClaimRefund should succeed for failed launch");
}

#[test]
fn test_withdraw_funds() {
    let mut s = deploy_contract();
    let mut input = create_test_launch_input(START_BLOCK);
    input.min_raise = 50 * ONE_VARA;
    s.create_launch(CREATOR, START_BLOCK, input).unwrap();
    let launch_id: u64 = 0;
    s.start_launch(CREATOR, launch_id).unwrap();
    let now = START_BLOCK + 15;
    s.contribute(CONTRIBUTOR1, 100 * ONE_VARA, now, launch_id).unwrap();
    let after_end = START_BLOCK + 10015;
    s.finalize(after_end, launch_id).unwrap();
    let r = s.withdraw_funds(CREATOR, launch_id);
    assert!(r.is_ok(), "WithdrawFunds should succeed for creator");
}

#[test]
fn test_unauthorized_withdraw_fails() {
    let mut s = deploy_contract();
    let mut input = create_test_launch_input(START_BLOCK);
    input.min_raise = 50 * ONE_VARA;
    s.create_launch(CREATOR, START_BLOCK, input).unwrap();
    let launch_id: u64 = 0;
    s.start_launch(CREATOR, launch_id).unwrap();
    let now = START_BLOCK + 15;
    s.contribute(CONTRIBUTOR1, 100 * ONE_VARA, now, launch_id).unwrap();
    let after_end = START_BLOCK + 10015;
    s.finalize(after_end, launch_id).unwrap();
    let r = s.withdraw_funds(ANYONE, launch_id);
    assert!(r.is_err(), "Unauthorized withdraw should fail");
}

#[test]
fn test_cancel_launch() {
    let mut s = deploy_contract();
    let input = create_test_launch_input(START_BLOCK);
    s.create_launch(CREATOR, START_BLOCK, input).unwrap();
    let launch_id: u64 = 0;
    let r = s.cancel_launch(CREATOR, launch_id);
    assert!(r.is_ok(), "CancelLaunch should succeed for pending launch");
}

#[test]
fn test_pause_resume() {
    let mut s = deploy_contract();

    let r = s.pause(OWNER);
    assert!(r.is_ok(), "Pause should succeed");

    let input = create_test_launch_input(START_BLOCK);
    let r = s.create_launch(CREATOR, START_BLOCK, input.clone());
    assert!(r.is_err(), "CreateLaunch should fail when paused");

    let r = s.resume(OWNER);
    assert!(r.is_ok(), "Resume should succeed");

    let r = s.create_launch(CREATOR, START_BLOCK, input);
    assert!(r.is_ok(), "CreateLaunch should succeed after resume");
}

#[test]
fn test_query_launch() {
    let mut s = deploy_contract();
    let input = create_test_launch_input(START_BLOCK);
    s.create_launch(CREATOR, START_BLOCK, input).unwrap();
    let launch_id: u64 = 0;
    let r = s.get_launch(launch_id);
    assert!(r.is_some(), "GetLaunch query should succeed");
}

#[test]
fn test_query_active_launches() {
    let mut s = deploy_contract();
    let input = create_test_launch_input(START_BLOCK);
    s.create_launch(CREATOR, START_BLOCK, input).unwrap();
    let launch_id: u64 = 0;
    s.start_launch(CREATOR, launch_id).unwrap();
    let active = s.get_active_launches();
    assert_eq!(active.len(), 1, "GetActiveLaunches query should succeed");
}

#[test]
fn test_full_launch_lifecycle() {
    let mut s = deploy_contract();

    // 1. create launch
    let mut input = create_test_launch_input(START_BLOCK);
    input.min_raise = 100 * ONE_VARA;
    let r = s.create_launch(CREATOR, START_BLOCK, input);
    assert!(r.is_ok(), "Create should succeed");
    let launch_id: u64 = 0;

    // 2. start launch
    let r = s.start_launch(CREATOR, launch_id);
    assert!(r.is_ok(), "Start should succeed");

    // 3. advance to start time
    let now = START_BLOCK + 15;

    // 4. contributors participate
    let r = s.contribute(CONTRIBUTOR1, 60 * ONE_VARA, now, launch_id);
    assert!(r.is_ok(), "Contribution 1 should succeed");
    let r = s.contribute(CONTRIBUTOR2, 60 * ONE_VARA, now, launch_id);
    assert!(r.is_ok(), "Contribution 2 should succeed");

    // 5. advance past end time, 6. finalize
    let after_end = START_BLOCK + 10015;
    let r = s.finalize(after_end, launch_id);
    assert!(r.is_ok(), "Finalize should succeed");

    // 7. creator withdraws funds
    let r = s.withdraw_funds(CREATOR, launch_id);
    assert!(r.is_ok(), "Withdraw should succeed");

    // 8. contributors claim tokens
    let r = s.claim_tokens(CONTRIBUTOR1, after_end, launch_id);
    assert!(r.is_ok(), "Claim 1 should succeed");
    let r = s.claim_tokens(CONTRIBUTOR2, after_end, launch_id);
    assert!(r.is_ok(), "Claim 2 should succeed");
}

#[test]
fn test_contribution_limits() {
    let mut s = deploy_contract();
    let mut input = create_test_launch_input(START_BLOCK);
    input.max_per_wallet = 50 * ONE_VARA;
    s.create_launch(CREATOR, START_BLOCK, input).unwrap();
    let launch_id: u64 = 0;
    s.start_launch(CREATOR, launch_id).unwrap();
    let now = START_BLOCK + 15;

    let r = s.contribute(CONTRIBUTOR1, 50 * ONE_VARA, now, launch_id);
    assert!(r.is_ok(), "First contribution should succeed");

    let r = s.contribute(CONTRIBUTOR1, 10 * ONE_VARA, now, launch_id);
    assert!(r.is_err(), "Over-limit contribution should fail");
}

#[test]
fn test_withdraw_platform_fees() {
    let mut s = deploy_contract();
    let mut input = create_test_launch_input(START_BLOCK);
    input.min_raise = 50 * ONE_VARA;
    s.create_launch(CREATOR, START_BLOCK, input).unwrap();
    let launch_id: u64 = 0;
    s.start_launch(CREATOR, launch_id).unwrap();
    let now = START_BLOCK + 15;
    s.contribute(CONTRIBUTOR1, 100 * ONE_VARA, now, launch_id).unwrap();
    let after_end = START_BLOCK + 10015;
    s.finalize(after_end, launch_id).unwrap();

    // creator withdraws (generates fees)
    s.withdraw_funds(CREATOR, launch_id).unwrap();

    // owner withdraws fees
    let r = s.withdraw_fees(OWNER);
    assert!(r.is_ok(), "WithdrawFees should succeed for owner");
}

#[test]
fn full_lifecycle_values_are_exact() {
    let mut s = deploy_contract();
    let mut input = create_test_launch_input(START_BLOCK);
    input.min_raise = 50 * ONE_VARA;
    s.create_launch(CREATOR, START_BLOCK, input).unwrap();
    s.start_launch(CREATOR, 0).unwrap();
    let now = START_BLOCK + 15;

    // at a price of 10^9 per token, 60 VARA buys 60_000 tokens
    let rc = s.contribute(CONTRIBUTOR1, 60 * ONE_VARA, now, 0).unwrap();
    assert_eq!(rc.tokens, 60_000);
    assert_eq!(rc.accepted, 60 * ONE_VARA);
    assert_eq!(rc.refund, 0);

    s.finalize(START_BLOCK + 10015, 0).unwrap();
    let l = s.get_launch(0).unwrap();
    assert_eq!(l.status, LaunchStatus::DistributionPending);

    // 2% platform fee on 60 VARA
    let paid = s.withdraw_funds(CREATOR, 0).unwrap();
    let fee = 60 * ONE_VARA * 200 / 10_000;
    assert_eq!(paid, 60 * ONE_VARA - fee);
    assert_eq!(s.get_accumulated_fees(), fee);
    assert_eq!(s.get_available_fees(), fee);

    let claimed = s.claim_tokens(CONTRIBUTOR1, START_BLOCK + 10015, 0).unwrap();
    assert_eq!(claimed, 60_000);
    assert_eq!(s.get_claimed(0, CONTRIBUTOR1), 60_000);

    // a second withdrawal must hit the latch
    assert_eq!(s.withdraw_funds(CREATOR, 0), Err(ContractError::AlreadyProcessed));
}
