//! Exact-value tests for the vesting calculator, the fee formula, and the
//! error cases of every operation.

use launchpad::{
    calculate_vested_tokens, ContractError, CreateLaunchInput, LaunchpadStorage, VestingConfig,
};

const OWNER: u64 = 1;
const CREATOR: u64 = 2;
const ALICE: u64 = 10;

fn base_input(now: u32) -> CreateLaunchInput {
    CreateLaunchInput {
        title: "Launch".to_string(),
        description: String::new(),
        token_address: 99,
        total_tokens: 1_000_000,
        price_per_token: 1,
        min_raise: 100,
        max_raise: 1000,
        max_per_wallet: 200,
        start_time: now + 10,
        end_time: now + 10000,
        whitelist_enabled: false,
        vesting_config: None,
    }
}

#[test]
fn vesting_before_cliff_is_zero() {
    let v = VestingConfig::new(100, 10, 100);
    assert_eq!(v.cliff_end(), 110);
    assert_eq!(v.vesting_end(), 200);
    assert_eq!(calculate_vested_tokens(1000, &v, 0), 0);
    assert_eq!(calculate_vested_tokens(1000, &v, 109), 0);
}

#[test]
fn vesting_is_linear_in_between() {
    let v = VestingConfig::new(100, 10, 100);
    // exactly at the cliff: 10 of 100 blocks elapsed
    assert_eq!(calculate_vested_tokens(1000, &v, 110), 100);
    assert_eq!(calculate_vested_tokens(1000, &v, 123), 230);
    assert_eq!(calculate_vested_tokens(1000, &v, 150), 500);
    assert_eq!(calculate_vested_tokens(1000, &v, 199), 990);
    // rounding is always downward
    assert_eq!(calculate_vested_tokens(7, &v, 150), 3);
}

#[test]
fn vesting_after_end_is_everything() {
    let v = VestingConfig::new(100, 10, 100);
    assert_eq!(calculate_vested_tokens(1000, &v, 200), 1000);
    assert_eq!(calculate_vested_tokens(1000, &v, u32::MAX), 1000);
    // a schedule without duration is fully vested once the cliff passes
    let z = VestingConfig::new(100, 0, 0);
    assert_eq!(calculate_vested_tokens(1000, &z, 100), 1000);
}

#[test]
fn vesting_cliff_outlasting_duration_wins() {
    // the cliff test comes first: past the vesting end but under the cliff,
    // nothing is vested yet
    let v = VestingConfig::new(100, 80, 50);
    assert_eq!(calculate_vested_tokens(1000, &v, 160), 0);
    assert_eq!(calculate_vested_tokens(1000, &v, 180), 1000);
}

#[test]
fn vesting_with_huge_entitlement_is_exact() {
    // intermediate products would overflow a naive multiply
    let v = VestingConfig::new(0, 0, 1000);
    let total: u128 = u128::MAX / 2;
    assert_eq!(calculate_vested_tokens(total, &v, 500), total / 1000 * 500 + total % 1000 * 500 / 1000);
}

#[test]
fn vested_claims_follow_the_schedule() {
    let mut s = LaunchpadStorage::new(OWNER, 0);
    let mut input = base_input(1);
    input.min_raise = 0;
    input.vesting_config = Some(VestingConfig::new(10100, 100, 1000));
    let id = s.create_launch(CREATOR, 1, input).unwrap();
    s.start_launch(CREATOR, id).unwrap();
    s.contribute(ALICE, 200, 16, id).unwrap();
    s.finalize(10002, id).unwrap();

    // before the cliff ends nothing can be claimed
    assert!(matches!(s.claim_tokens(ALICE, 10150, id), Err(ContractError::InvalidState(_))));
    assert_eq!(s.get_claimable_tokens(id, ALICE, 10150), 0);

    // halfway through the schedule, half of the 200 tokens are vested
    assert_eq!(s.claim_tokens(ALICE, 10600, id).unwrap(), 100);
    // claiming again at the same block: nothing new has vested
    assert!(matches!(s.claim_tokens(ALICE, 10600, id), Err(ContractError::InvalidState(_))));
    // after the end, the remainder comes out
    assert_eq!(s.claim_tokens(ALICE, 11100, id).unwrap(), 100);
    assert_eq!(s.get_claimed(id, ALICE), 200);
}

#[test]
fn fee_is_floored_basis_points() {
    assert_eq!(LaunchpadStorage::compute_fee(999, 250), 24);
    assert_eq!(LaunchpadStorage::compute_fee(999, 0), 0);
    assert_eq!(LaunchpadStorage::compute_fee(999, 10_000), 999);
    assert_eq!(LaunchpadStorage::compute_fee(0, 250), 0);
    assert_eq!(LaunchpadStorage::compute_fee(u128::MAX, 10_000), u128::MAX);
    assert_eq!(LaunchpadStorage::compute_fee(u128::MAX, 1), u128::MAX / 10_000);
}

#[test]
fn create_launch_rejects_bad_parameters() {
    let mut s = LaunchpadStorage::new(OWNER, 200);
    let now: u32 = 1;

    let mut input = base_input(now);
    input.title = String::new();
    assert!(matches!(s.create_launch(CREATOR, now, input), Err(ContractError::InvalidInput(_))));

    let mut input = base_input(now);
    input.total_tokens = 0;
    assert!(matches!(s.create_launch(CREATOR, now, input), Err(ContractError::InvalidInput(_))));

    let mut input = base_input(now);
    input.price_per_token = 0;
    assert!(matches!(s.create_launch(CREATOR, now, input), Err(ContractError::InvalidInput(_))));

    let mut input = base_input(now);
    input.start_time = input.end_time;
    assert!(matches!(s.create_launch(CREATOR, now, input), Err(ContractError::InvalidInput(_))));

    // the start must lie in the future
    let input = base_input(now);
    assert!(matches!(
        s.create_launch(CREATOR, input.start_time, input),
        Err(ContractError::InvalidInput(_))
    ));

    let mut input = base_input(now);
    input.min_raise = input.max_raise + 1;
    assert!(matches!(s.create_launch(CREATOR, now, input), Err(ContractError::InvalidInput(_))));

    let mut input = base_input(now);
    input.max_per_wallet = 0;
    assert!(matches!(s.create_launch(CREATOR, now, input), Err(ContractError::InvalidInput(_))));

    // the supply at this price cannot cover the maximum raise
    let mut input = base_input(now);
    input.total_tokens = 10;
    input.price_per_token = 2;
    input.min_raise = 0;
    input.max_raise = 21;
    assert!(matches!(s.create_launch(CREATOR, now, input), Err(ContractError::InvalidInput(_))));

    // nothing was created by any of the rejections
    assert_eq!(s.get_launch_count(), 0);
}

#[test]
fn operation_errors_are_tagged() {
    let mut s = LaunchpadStorage::new(OWNER, 200);

    // unknown launch id
    assert_eq!(s.start_launch(CREATOR, 7), Err(ContractError::NotFound));
    assert!(s.get_launch(7).is_none());
    assert_eq!(s.get_contribution(7, ALICE), 0);

    // only the owner may pause or withdraw fees
    assert_eq!(s.pause(ALICE), Err(ContractError::Unauthorized));
    assert_eq!(s.withdraw_fees(ALICE), Err(ContractError::Unauthorized));

    // no fees accrued yet
    assert_eq!(s.withdraw_fees(OWNER), Err(ContractError::ZeroAmount));

    let id = s.create_launch(CREATOR, 1, base_input(1)).unwrap();

    // only the creator may start
    assert_eq!(s.start_launch(ALICE, id), Err(ContractError::Unauthorized));
    s.start_launch(CREATOR, id).unwrap();

    // outside the contribution window
    assert!(matches!(s.contribute(ALICE, 50, 5, id), Err(ContractError::InvalidState(_))));
    assert!(matches!(s.contribute(ALICE, 50, 20_000, id), Err(ContractError::InvalidState(_))));

    // a payment too small to buy a single token
    let mut input = base_input(1);
    input.price_per_token = 10;
    input.min_raise = 0;
    let id2 = s.create_launch(CREATOR, 1, input).unwrap();
    s.start_launch(CREATOR, id2).unwrap();
    assert!(matches!(s.contribute(ALICE, 5, 16, id2), Err(ContractError::InvalidInput(_))));
}

#[test]
fn fee_accrual_can_overflow_and_is_reported() {
    let mut s = LaunchpadStorage::new(OWNER, 10_000);
    let huge: u128 = 1 << 127;
    let input = CreateLaunchInput {
        title: "Big".to_string(),
        description: String::new(),
        token_address: 99,
        total_tokens: huge,
        price_per_token: 1,
        min_raise: 0,
        max_raise: huge,
        max_per_wallet: huge,
        start_time: 11,
        end_time: 10001,
        whitelist_enabled: false,
        vesting_config: None,
    };
    for launch in 0..2u64 {
        let id = s.create_launch(CREATOR, 1, input.clone()).unwrap();
        assert_eq!(id, launch);
        s.start_launch(CREATOR, id).unwrap();
        s.contribute(ALICE + launch, huge, 16, id).unwrap();
        s.finalize(10002, id).unwrap();
    }
    // the whole raise is fee at 100%; the first withdrawal accrues half of
    // the fee ledger's range, the second would push it past the maximum
    assert_eq!(s.withdraw_funds(CREATOR, 0).unwrap(), 0);
    assert_eq!(s.get_accumulated_fees(), huge);
    assert_eq!(s.withdraw_funds(CREATOR, 1), Err(ContractError::Overflow));
    // the rejected withdrawal left the latch untouched
    assert!(!s.get_launch(1).unwrap().funds_withdrawn);
}
