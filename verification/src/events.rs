//! The notifications that the operations hand out for the event log.
//!
//! Downstream readers depend on the names and the order of the fields.

use anchor_lang::prelude::Pubkey;
use vstd::prelude::*;
use crate::tier::Tier;

verus! {

/// The program was set up.
#[derive(Clone, Debug, PartialEq, Eq)]
pub struct ProgramInitialized {
    pub authority: Pubkey,
    pub otto_token_mint: Pubkey,
    pub rewards_percentage: u16,
    pub min_purchase_amount: u64,
    pub min_holdings_for_referral: u64,
}

/// A referrer was registered.
#[derive(Clone, Debug, PartialEq, Eq)]
pub struct ReferrerRegistered {
    pub authority: Pubkey,
    pub referral_code: String,
    pub initial_holdings: u64,
    pub timestamp: i64,
}

/// A purchase was recorded.
#[derive(Clone, Debug, PartialEq, Eq)]
pub struct PurchaseProcessed {
    pub buyer: Pubkey,
    pub amount: u64,
    pub timestamp: i64,
}

/// A referral was rewarded, with the ratio and the holdings that the reward
/// was computed from.
#[derive(Clone, Debug, PartialEq, Eq)]
pub struct DynamicReferralProcessed {
    pub buyer: Pubkey,
    pub referrer: Pubkey,
    pub referral_code: String,
    pub purchase_amount: u64,
    pub dynamic_reward: u64,
    pub holding_ratio: u16,
    pub referrer_holdings: u64,
    pub timestamp: i64,
}

/// One of the notifications of a purchase.
#[derive(Clone, Debug, PartialEq, Eq)]
pub enum PurchaseNotification {
    Referral(DynamicReferralProcessed),
    Purchase(PurchaseProcessed),
}

/// A referrer's tier was set anew.
#[derive(Clone, Debug, PartialEq, Eq)]
pub struct TierUpdated {
    pub authority: Pubkey,
    pub old_tier: Tier,
    pub new_tier: Tier,
    pub balance: u64,
    pub timestamp: i64,
}

/// A buyer's rebate was paid.
#[derive(Clone, Debug, PartialEq, Eq)]
pub struct RewardsClaimed {
    pub buyer: Pubkey,
    pub amount: u64,
    pub timestamp: i64,
}

/// The program's parameters, as they stand after a change.
#[derive(Clone, Debug, PartialEq, Eq)]
pub struct ProgramParamsUpdated {
    pub authority: Pubkey,
    pub rewards_percentage: u16,
    pub min_purchase_amount: u64,
    pub timestamp: i64,
}

/// A referrer's holdings were observed anew.
#[derive(Clone, Debug, PartialEq, Eq)]
pub struct HoldingsRatioUpdated {
    pub authority: Pubkey,
    pub previous_holdings: u64,
    pub new_holdings: u64,
    pub holding_ratio: u16,
    pub timestamp: i64,
}

} // verus!
