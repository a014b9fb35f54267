//! The persisted records: the program's configuration, the referrers and the
//! purchases.

use anchor_lang::prelude::Pubkey;
use vstd::prelude::*;
use crate::tier::Tier;

verus! {

/// The highest rebate percentage that an update accepts: ten percent.
pub const MAX_REWARDS_PERCENTAGE: u16 = 1_000;

/// The fewest characters a referral code may have.
pub const MIN_REFERRAL_CODE_LEN: usize = 4;

/// The most characters a referral code may have.
pub const MAX_REFERRAL_CODE_LEN: usize = 32;

/// A holding ratio of one whole, in basis points.
pub const FULL_HOLDING_RATIO: u16 = 10_000;

/// The bronze threshold that a new program starts with.
pub const DEFAULT_BRONZE_THRESHOLD: u64 = 1_000_000;

/// The silver threshold that a new program starts with.
pub const DEFAULT_SILVER_THRESHOLD: u64 = 5_000_000;

/// The gold threshold that a new program starts with.
pub const DEFAULT_GOLD_THRESHOLD: u64 = 10_000_000;

/// The length of a referral code: the number of its characters.
pub open spec fn code_length(code: Seq<char>) -> nat {
    code.len()
}

/// The program's configuration. There is one.
#[derive(Clone, Debug, PartialEq, Eq)]
pub struct ProgramState {
    /// Who may change the parameters.
    pub authority: Pubkey,
    /// The token that rewards are paid in.
    pub otto_token_mint: Pubkey,
    /// The vault that rewards are paid from.
    pub rewards_pool: Pubkey,
    /// The buyer's rebate, in basis points.
    pub rewards_percentage: u16,
    pub min_purchase_amount: u64,
    pub min_holdings_for_referral: u64,
    /// The referrer's base rate, in basis points.
    pub base_reward_rate: u16,
    pub total_referrals: u64,
    pub total_rewards_distributed: u64,
    pub bronze_threshold: u64,
    pub silver_threshold: u64,
    pub gold_threshold: u64,
    /// The nonce of the vault's signing authority.
    pub bump: u8,
}

impl ProgramState {
    /// The rebate percentage is within the cap.
    pub open spec fn percentage_capped(self) -> bool {
        self.rewards_percentage <= MAX_REWARDS_PERCENTAGE
    }

    /// The three thresholds rise from bronze to gold.
    pub open spec fn thresholds_ascend(self) -> bool {
        self.bronze_threshold < self.silver_threshold < self.gold_threshold
    }

    /// What holds of a configuration in good order: the percentage is
    /// within the cap and the thresholds rise.
    pub open spec fn sound(self) -> bool {
        self.percentage_capped() && self.thresholds_ascend()
    }
}

/// A referrer, one per referral code.
#[derive(Clone, Debug, PartialEq, Eq)]
pub struct ReferrerAccount {
    /// Who registered the code and owns this record.
    pub authority: Pubkey,
    pub referral_code: String,
    pub total_referrals: u32,
    pub total_rewards_earned: u64,
    pub tier: Tier,
    pub last_activity: i64,
    pub is_active: bool,
    /// The balance at registration.
    pub initial_holdings: u64,
    /// The balance as last observed.
    pub current_holdings: u64,
    /// Current over initial holdings in basis points, at most one whole.
    pub holding_ratio: u16,
    pub bump: u8,
}

impl ReferrerAccount {
    /// What holds of every record that the operations make or leave behind:
    /// the ratio is at most one whole and the code has an accepted length.
    pub open spec fn well_formed(self) -> bool {
        &&& self.holding_ratio <= FULL_HOLDING_RATIO
        &&& MIN_REFERRAL_CODE_LEN <= code_length(self.referral_code@) <= MAX_REFERRAL_CODE_LEN
    }

    /// This record is a later state of `earlier`: what registration fixed
    /// is as it was. That is the owner, the code, the initial holdings, the
    /// activity flag and the nonce.
    pub open spec fn continues(self, earlier: ReferrerAccount) -> bool {
        &&& self.authority == earlier.authority
        &&& self.referral_code == earlier.referral_code
        &&& self.initial_holdings == earlier.initial_holdings
        &&& self.is_active == earlier.is_active
        &&& self.bump == earlier.bump
    }
}

/// A purchase. It is created unclaimed, and claimed once.
#[derive(Clone, Debug, PartialEq, Eq)]
pub struct PurchaseAccount {
    pub buyer: Pubkey,
    pub amount: u64,
    pub timestamp: i64,
    /// The referral code that the buyer named, if any.
    pub referral_code: Option<String>,
    pub rewards_claimed: bool,
    pub bump: u8,
}

} // verus!
