use anchor_lang::prelude::Pubkey;
use otto_referral_rewards::{initialize, update_program_params, ErrorCode, ProgramState};

fn key(n: u8) -> Pubkey {
    Pubkey::new_from_array([n; 32])
}

fn fresh() -> ProgramState {
    initialize(key(1), key(2), key(3), 200, 1_000, 1_000_000, 500, 254).0
}

#[test]
fn initialize_sets_the_parameters_and_the_default_thresholds() {
    let (state, event) = initialize(key(1), key(2), key(3), 200, 1_000, 1_000_000, 500, 254);
    assert_eq!(state.authority, key(1));
    assert_eq!(state.otto_token_mint, key(2));
    assert_eq!(state.rewards_pool, key(3));
    assert_eq!(state.rewards_percentage, 200);
    assert_eq!(state.min_purchase_amount, 1_000);
    assert_eq!(state.min_holdings_for_referral, 1_000_000);
    assert_eq!(state.base_reward_rate, 500);
    assert_eq!(state.total_referrals, 0);
    assert_eq!(state.total_rewards_distributed, 0);
    assert_eq!(state.bronze_threshold, 1_000_000);
    assert_eq!(state.silver_threshold, 5_000_000);
    assert_eq!(state.gold_threshold, 10_000_000);
    assert_eq!(state.bump, 254);
    assert_eq!(event.authority, key(1));
    assert_eq!(event.otto_token_mint, key(2));
    assert_eq!(event.rewards_percentage, 200);
    assert_eq!(event.min_purchase_amount, 1_000);
    assert_eq!(event.min_holdings_for_referral, 1_000_000);
}

#[test]
fn percentage_above_the_cap_is_refused_and_nothing_changes() {
    let mut state = fresh();
    let before = state.clone();
    let result =
        update_program_params(&mut state, &key(1), Some(1_001), Some(5), Some([1, 2, 3]), 77);
    assert_eq!(result, Err(ErrorCode::InvalidRewardsPercentage));
    assert_eq!(state, before);
}

#[test]
fn percentage_at_the_cap_is_accepted() {
    let mut state = fresh();
    let event = update_program_params(&mut state, &key(1), Some(1_000), None, None, 77).unwrap();
    assert_eq!(state.rewards_percentage, 1_000);
    assert_eq!(event.rewards_percentage, 1_000);
    assert_eq!(event.min_purchase_amount, 1_000);
    assert_eq!(event.authority, key(1));
    assert_eq!(event.timestamp, 77);
}

#[test]
fn each_parameter_changes_alone() {
    let mut state = fresh();
    update_program_params(&mut state, &key(1), None, Some(42), None, 1).unwrap();
    let mut expected = fresh();
    expected.min_purchase_amount = 42;
    assert_eq!(state, expected);

    update_program_params(&mut state, &key(1), None, None, Some([10, 20, 30]), 2).unwrap();
    expected.bronze_threshold = 10;
    expected.silver_threshold = 20;
    expected.gold_threshold = 30;
    assert_eq!(state, expected);

    update_program_params(&mut state, &key(1), Some(0), None, None, 3).unwrap();
    expected.rewards_percentage = 0;
    assert_eq!(state, expected);
}

#[test]
fn an_update_without_arguments_reports_the_values_in_force() {
    let mut state = fresh();
    let event = update_program_params(&mut state, &key(1), None, None, None, 9).unwrap();
    assert_eq!(state, fresh());
    assert_eq!(event.rewards_percentage, 200);
    assert_eq!(event.min_purchase_amount, 1_000);
    assert_eq!(event.timestamp, 9);
}

#[test]
fn thresholds_that_do_not_rise_are_refused_and_nothing_changes() {
    for thresholds in [[30, 20, 10], [10, 10, 20], [10, 20, 20], [10, 30, 20], [20, 10, 30], [0, 0, 0]]
    {
        let mut state = fresh();
        let result =
            update_program_params(&mut state, &key(1), Some(300), Some(5), Some(thresholds), 2);
        assert_eq!(result, Err(ErrorCode::InvalidTierThresholds));
        assert_eq!(state, fresh());
    }
}

#[test]
fn thresholds_that_rise_by_one_are_accepted() {
    let mut state = fresh();
    update_program_params(&mut state, &key(1), None, None, Some([0, 1, 2]), 2).unwrap();
    assert_eq!(state.bronze_threshold, 0);
    assert_eq!(state.silver_threshold, 1);
    assert_eq!(state.gold_threshold, 2);
    update_program_params(&mut state, &key(1), None, None, Some([u64::MAX - 2, u64::MAX - 1, u64::MAX]), 3)
        .unwrap();
    assert_eq!(state.gold_threshold, u64::MAX);
}

#[test]
fn the_percentage_is_looked_at_before_the_thresholds() {
    let mut state = fresh();
    let result = update_program_params(&mut state, &key(1), Some(1_001), None, Some([3, 2, 1]), 2);
    assert_eq!(result, Err(ErrorCode::InvalidRewardsPercentage));
    let result = update_program_params(&mut state, &key(9), Some(1_001), None, Some([3, 2, 1]), 2);
    assert_eq!(result, Err(ErrorCode::UnauthorizedClaim));
    assert_eq!(state, fresh());
}

#[test]
fn a_configuration_in_good_order_stays_so() {
    let mut state = fresh();
    let attempts = [
        (Some(1_001), Some([1, 2, 3])),
        (Some(1_000), Some([3, 2, 1])),
        (Some(0), Some([1, 2, 3])),
        (None, None),
        (Some(65_535), None),
        (None, Some([5, 5, 5])),
    ];
    for (percentage, thresholds) in attempts {
        let _ = update_program_params(&mut state, &key(1), percentage, None, thresholds, 2);
        assert!(state.rewards_percentage <= 1_000);
        assert!(state.bronze_threshold < state.silver_threshold);
        assert!(state.silver_threshold < state.gold_threshold);
    }
}

#[test]
fn thresholds_that_ascend_are_stored_and_classify_by() {
    let mut state = fresh();
    update_program_params(&mut state, &key(1), None, None, Some([10, 20, 30]), 2).unwrap();
    assert!(state.bronze_threshold < state.silver_threshold);
    assert!(state.silver_threshold < state.gold_threshold);
}

#[test]
fn only_the_authority_changes_the_parameters() {
    let mut state = fresh();
    let result = update_program_params(&mut state, &key(9), Some(300), Some(5), None, 77);
    assert_eq!(result, Err(ErrorCode::UnauthorizedClaim));
    assert_eq!(state, fresh());
}

#[test]
fn a_stranger_is_refused_before_the_percentage_is_looked_at() {
    let mut state = fresh();
    let result = update_program_params(&mut state, &key(9), Some(1_001), None, None, 77);
    assert_eq!(result, Err(ErrorCode::UnauthorizedClaim));
}

#[test]
fn every_refusal_has_its_sentence() {
    assert_eq!(
        ErrorCode::ReferralCodeTooLong.message(),
        "Referral code must be between 4 and 32 characters"
    );
    assert_eq!(
        ErrorCode::ReferralCodeTooShort.message(),
        "Referral code must be at least 4 characters"
    );
    assert_eq!(
        ErrorCode::PurchaseAmountTooLow.message(),
        "Purchase amount is below minimum threshold"
    );
    assert_eq!(ErrorCode::SelfReferralNotAllowed.message(), "Self-referral is not allowed");
    assert_eq!(
        ErrorCode::RewardsAlreadyClaimed.message(),
        "Rewards have already been claimed for this purchase"
    );
    assert_eq!(ErrorCode::UnauthorizedClaim.message(), "Unauthorized to claim rewards");
    assert_eq!(
        ErrorCode::InvalidRewardsPercentage.message(),
        "Invalid rewards percentage (max 10%)"
    );
    assert_eq!(
        ErrorCode::InsufficientHoldingsForReferral.message(),
        "Insufficient holdings to become referrer"
    );
    assert_eq!(
        ErrorCode::InvalidTierThresholds.message(),
        "Tier thresholds must rise from bronze to gold"
    );
}
