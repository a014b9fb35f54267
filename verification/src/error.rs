//! The ways an operation is refused.

use vstd::prelude::*;

verus! {

/// Why an operation was refused. Each one is a violated precondition: the
/// operation changed nothing, and the caller may try again with other input.
#[derive(Clone, Copy, Debug, PartialEq, Eq, Structural)]
pub enum ErrorCode {
    /// The referral code is longer than 32 characters.
    ReferralCodeTooLong,
    /// The referral code is shorter than 4 characters.
    ReferralCodeTooShort,
    /// The purchase is smaller than the program's minimum.
    PurchaseAmountTooLow,
    /// The buyer named a referrer record that the buyer owns.
    SelfReferralNotAllowed,
    /// The rebate of this purchase was paid before.
    RewardsAlreadyClaimed,
    /// The caller is not the identity that the record belongs to.
    UnauthorizedClaim,
    /// The rebate percentage is above the cap of ten percent.
    InvalidRewardsPercentage,
    /// The balance is below what a referrer must hold.
    InsufficientHoldingsForReferral,
    /// The tier thresholds do not rise from bronze to gold.
    InvalidTierThresholds,
}

impl ErrorCode {
    /// The text that goes with each refusal.
    pub open spec fn message_of(self) -> Seq<char> {
        match self {
            ErrorCode::ReferralCodeTooLong => "Referral code must be between 4 and 32 characters"@,
            ErrorCode::ReferralCodeTooShort => "Referral code must be at least 4 characters"@,
            ErrorCode::PurchaseAmountTooLow => "Purchase amount is below minimum threshold"@,
            ErrorCode::SelfReferralNotAllowed => "Self-referral is not allowed"@,
            ErrorCode::RewardsAlreadyClaimed => "Rewards have already been claimed for this purchase"@,
            ErrorCode::UnauthorizedClaim => "Unauthorized to claim rewards"@,
            ErrorCode::InvalidRewardsPercentage => "Invalid rewards percentage (max 10%)"@,
            ErrorCode::InsufficientHoldingsForReferral => "Insufficient holdings to become referrer"@,
            ErrorCode::InvalidTierThresholds => "Tier thresholds must rise from bronze to gold"@,
        }
    }

    /// A sentence for the caller.
    pub fn message(&self) -> (text: &'static str)
        ensures
            text@ == self.message_of(),
    {
        match self {
            ErrorCode::ReferralCodeTooLong => "Referral code must be between 4 and 32 characters",
            ErrorCode::ReferralCodeTooShort => "Referral code must be at least 4 characters",
            ErrorCode::PurchaseAmountTooLow => "Purchase amount is below minimum threshold",
            ErrorCode::SelfReferralNotAllowed => "Self-referral is not allowed",
            ErrorCode::RewardsAlreadyClaimed => "Rewards have already been claimed for this purchase",
            ErrorCode::UnauthorizedClaim => "Unauthorized to claim rewards",
            ErrorCode::InvalidRewardsPercentage => "Invalid rewards percentage (max 10%)",
            ErrorCode::InsufficientHoldingsForReferral => "Insufficient holdings to become referrer",
            ErrorCode::InvalidTierThresholds => "Tier thresholds must rise from bronze to gold",
        }
    }
}

} // verus!
