//! The program's configuration: set up once, changed by its authority.

use anchor_lang::prelude::Pubkey;
use vstd::prelude::*;
use crate::error::ErrorCode;
use crate::events::{ProgramInitialized, ProgramParamsUpdated};
use crate::identity::same_identity;
use crate::state::{
    ProgramState, DEFAULT_BRONZE_THRESHOLD, DEFAULT_GOLD_THRESHOLD, DEFAULT_SILVER_THRESHOLD,
    MAX_REWARDS_PERCENTAGE,
};

verus! {

/// The configuration that a new program starts with: the given identities
/// and parameters, the default thresholds, and counters at zero.
pub open spec fn initial_state(
    authority: Pubkey,
    otto_token_mint: Pubkey,
    rewards_pool: Pubkey,
    rewards_percentage: u16,
    min_purchase_amount: u64,
    min_holdings_for_referral: u64,
    base_reward_rate: u16,
    bump: u8,
) -> ProgramState {
    ProgramState {
        authority,
        otto_token_mint,
        rewards_pool,
        rewards_percentage,
        min_purchase_amount,
        min_holdings_for_referral,
        base_reward_rate,
        total_referrals: 0,
        total_rewards_distributed: 0,
        bronze_threshold: DEFAULT_BRONZE_THRESHOLD,
        silver_threshold: DEFAULT_SILVER_THRESHOLD,
        gold_threshold: DEFAULT_GOLD_THRESHOLD,
        bump,
    }
}

/// Sets the program up. The parameters are taken as given.
pub fn initialize(
    authority: Pubkey,
    otto_token_mint: Pubkey,
    rewards_pool: Pubkey,
    rewards_percentage: u16,
    min_purchase_amount: u64,
    min_holdings_for_referral: u64,
    base_reward_rate: u16,
    bump: u8,
) -> (out: (ProgramState, ProgramInitialized))
    ensures
        out.0 == initial_state(
            authority,
            otto_token_mint,
            rewards_pool,
            rewards_percentage,
            min_purchase_amount,
            min_holdings_for_referral,
            base_reward_rate,
            bump,
        ),
        out.0.thresholds_ascend(),
        out.1 == (ProgramInitialized {
            authority,
            otto_token_mint,
            rewards_percentage,
            min_purchase_amount,
            min_holdings_for_referral,
        }),
{
    let program_state = ProgramState {
        authority,
        otto_token_mint,
        rewards_pool,
        rewards_percentage,
        min_purchase_amount,
        min_holdings_for_referral,
        base_reward_rate,
        total_referrals: 0,
        total_rewards_distributed: 0,
        bronze_threshold: DEFAULT_BRONZE_THRESHOLD,
        silver_threshold: DEFAULT_SILVER_THRESHOLD,
        gold_threshold: DEFAULT_GOLD_THRESHOLD,
        bump,
    };
    let event = ProgramInitialized {
        authority,
        otto_token_mint,
        rewards_percentage,
        min_purchase_amount,
        min_holdings_for_referral,
    };
    (program_state, event)
}

/// Three thresholds, given as bronze, silver, gold, rise from each to the
/// next.
pub open spec fn thresholds_rise(tier_thresholds: [u64; 3]) -> bool {
    tier_thresholds[0] < tier_thresholds[1] < tier_thresholds[2]
}

/// Why a change of parameters is refused, if it is: the caller is not the
/// program's authority, or the new percentage is above the cap, or the new
/// thresholds do not rise from bronze to gold. They are looked at in that
/// order.
pub open spec fn params_refusal(
    program_state: ProgramState,
    authority: Pubkey,
    rewards_percentage: Option<u16>,
    tier_thresholds: Option<[u64; 3]>,
) -> Option<ErrorCode> {
    if program_state.authority != authority {
        Some(ErrorCode::UnauthorizedClaim)
    } else if rewards_percentage is Some && rewards_percentage->0 > MAX_REWARDS_PERCENTAGE {
        Some(ErrorCode::InvalidRewardsPercentage)
    } else if tier_thresholds is Some && !thresholds_rise(tier_thresholds->0) {
        Some(ErrorCode::InvalidTierThresholds)
    } else {
        None
    }
}

/// The cap on the percentage: whatever else the authority's change names,
/// it is refused for its percentage exactly when that is above ten percent.
pub proof fn lemma_percentage_cap(
    program_state: ProgramState,
    rewards_percentage: Option<u16>,
    tier_thresholds: Option<[u64; 3]>,
)
    ensures
        params_refusal(
            program_state,
            program_state.authority,
            rewards_percentage,
            tier_thresholds,
        ) == Some(ErrorCode::InvalidRewardsPercentage) <==> rewards_percentage is Some
            && rewards_percentage->0 > MAX_REWARDS_PERCENTAGE,
{
}

/// The order of the thresholds: the authority's change with a percentage
/// within the cap, or none, is accepted exactly when its thresholds rise
/// from bronze to gold, or it names none.
pub proof fn lemma_thresholds_must_rise(
    program_state: ProgramState,
    rewards_percentage: Option<u16>,
    tier_thresholds: Option<[u64; 3]>,
)
    requires
        rewards_percentage is None || rewards_percentage->0 <= MAX_REWARDS_PERCENTAGE,
    ensures
        tier_thresholds is Some && !thresholds_rise(tier_thresholds->0) ==> params_refusal(
            program_state,
            program_state.authority,
            rewards_percentage,
            tier_thresholds,
        ) == Some(ErrorCode::InvalidTierThresholds),
        tier_thresholds is None || thresholds_rise(tier_thresholds->0) ==> params_refusal(
            program_state,
            program_state.authority,
            rewards_percentage,
            tier_thresholds,
        ) is None,
{
}

/// A configuration in good order stays so: every accepted change of one
/// leaves the percentage within the cap and the thresholds rising.
pub proof fn lemma_change_keeps_sound(
    program_state: ProgramState,
    authority: Pubkey,
    rewards_percentage: Option<u16>,
    min_purchase_amount: Option<u64>,
    tier_thresholds: Option<[u64; 3]>,
)
    requires
        program_state.sound(),
        params_refusal(program_state, authority, rewards_percentage, tier_thresholds) is None,
    ensures
        with_params(
            program_state,
            rewards_percentage,
            min_purchase_amount,
            tier_thresholds,
        ).sound(),
{
}

/// The configuration after a change: each parameter that is given replaces
/// the old one, each that is not stays. The thresholds come as bronze,
/// silver, gold.
pub open spec fn with_params(
    program_state: ProgramState,
    rewards_percentage: Option<u16>,
    min_purchase_amount: Option<u64>,
    tier_thresholds: Option<[u64; 3]>,
) -> ProgramState {
    ProgramState {
        rewards_percentage: match rewards_percentage {
            Some(percentage) => percentage,
            None => program_state.rewards_percentage,
        },
        min_purchase_amount: match min_purchase_amount {
            Some(amount) => amount,
            None => program_state.min_purchase_amount,
        },
        bronze_threshold: match tier_thresholds {
            Some(thresholds) => thresholds[0],
            None => program_state.bronze_threshold,
        },
        silver_threshold: match tier_thresholds {
            Some(thresholds) => thresholds[1],
            None => program_state.silver_threshold,
        },
        gold_threshold: match tier_thresholds {
            Some(thresholds) => thresholds[2],
            None => program_state.gold_threshold,
        },
        ..program_state
    }
}

/// Changes the program's parameters on behalf of `authority`.
///
/// Everything is looked at before anything is written: a refused change
/// leaves the configuration as it was. An accepted one reports the
/// percentage and the minimum purchase as they stand afterwards.
pub fn update_program_params(
    program_state: &mut ProgramState,
    authority: &Pubkey,
    rewards_percentage: Option<u16>,
    min_purchase_amount: Option<u64>,
    tier_thresholds: Option<[u64; 3]>,
    now: i64,
) -> (result: Result<ProgramParamsUpdated, ErrorCode>)
    ensures
        match result {
            Ok(event) => {
                &&& params_refusal(
                    *old(program_state),
                    *authority,
                    rewards_percentage,
                    tier_thresholds,
                ) is None
                &&& *final(program_state) == with_params(
                    *old(program_state),
                    rewards_percentage,
                    min_purchase_amount,
                    tier_thresholds,
                )
                &&& event == (ProgramParamsUpdated {
                    authority: *authority,
                    rewards_percentage: final(program_state).rewards_percentage,
                    min_purchase_amount: final(program_state).min_purchase_amount,
                    timestamp: now,
                })
            },
            Err(error) => {
                &&& params_refusal(
                    *old(program_state),
                    *authority,
                    rewards_percentage,
                    tier_thresholds,
                ) == Some(error)
                &&& *final(program_state) == *old(program_state)
            },
        },
        rewards_percentage is Some && result is Ok ==> final(program_state).percentage_capped(),
        old(program_state).percentage_capped() ==> final(program_state).percentage_capped(),
        tier_thresholds is Some && result is Ok ==> final(program_state).thresholds_ascend(),
        old(program_state).thresholds_ascend() ==> final(program_state).thresholds_ascend(),
        old(program_state).sound() ==> final(program_state).sound(),
{
    if !same_identity(&program_state.authority, authority) {
        return Err(ErrorCode::UnauthorizedClaim);
    }
    if let Some(percentage) = rewards_percentage {
        if percentage > MAX_REWARDS_PERCENTAGE {
            return Err(ErrorCode::InvalidRewardsPercentage);
        }
    }
    if let Some(thresholds) = tier_thresholds {
        if !(thresholds[0] < thresholds[1] && thresholds[1] < thresholds[2]) {
            return Err(ErrorCode::InvalidTierThresholds);
        }
    }
    if let Some(percentage) = rewards_percentage {
        program_state.rewards_percentage = percentage;
    }
    if let Some(amount) = min_purchase_amount {
        program_state.min_purchase_amount = amount;
    }
    if let Some(thresholds) = tier_thresholds {
        program_state.bronze_threshold = thresholds[0];
        program_state.silver_threshold = thresholds[1];
        program_state.gold_threshold = thresholds[2];
    }
    Ok(
        ProgramParamsUpdated {
            authority: *authority,
            rewards_percentage: program_state.rewards_percentage,
            min_purchase_amount: program_state.min_purchase_amount,
            timestamp: now,
        },
    )
}

} // verus!
