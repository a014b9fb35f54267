//! Verified core of a token-denominated referral-rewards ledger.
//!
//! The ledger tracks who referred a purchase, computes the referrer's reward
//! from the purchase's volume, the share of the initial holding that the
//! referrer still keeps and the size of that holding, and lets the buyer
//! claim a rebate on the purchase, once.
//!
//! Every operation is a function from records and plain values to records,
//! notifications and, where tokens are to move, an order for the token
//! service. The caller supplies what the ledger shows (balances, the time,
//! the nonces of addresses) and carries the orders out; each operation and
//! what follows from it form one atomic unit.

pub mod config;
pub mod error;
pub mod events;
pub mod gateway;
pub mod identity;
pub mod ledger;
pub mod registry;
pub mod reward;
pub mod state;
pub mod tier;

pub use config::{initialize, update_program_params};
pub use error::ErrorCode;
pub use events::{
    DynamicReferralProcessed, HoldingsRatioUpdated, ProgramInitialized, ProgramParamsUpdated,
    PurchaseNotification, PurchaseProcessed, ReferrerRegistered, RewardsClaimed, TierUpdated,
};
pub use gateway::TransferOrder;
pub use ledger::{
    claim_rewards, process_purchase, purchase_can_proceed, ClaimOutcome, PurchaseOutcome,
    ReferralSettlement,
};
pub use registry::{register_referrer, update_holdings_ratio, update_tier};
pub use reward::calculate_dynamic_reward;
pub use state::{ProgramState, PurchaseAccount, ReferrerAccount};
pub use tier::{classify, Tier};
