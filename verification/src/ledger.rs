//! The purchases: a purchase is recorded, with the referrer rewarded where
//! one is named, and its rebate is claimed later, once, by the buyer.

use anchor_lang::prelude::Pubkey;
use vstd::prelude::*;
use crate::error::ErrorCode;
use crate::events::{
    DynamicReferralProcessed, PurchaseNotification, PurchaseProcessed, RewardsClaimed,
};
use crate::gateway::{authorize_payout, drawn_from_vault, payout_order, TransferOrder};
use crate::identity::same_identity;
use crate::reward::{basis_point_share, calculate_dynamic_reward, dynamic_reward, step_share};
use crate::state::{ProgramState, PurchaseAccount, ReferrerAccount};

verus! {

/// What a rewarded referral leaves for the caller to carry out.
#[derive(Clone, Debug, PartialEq, Eq)]
pub struct ReferralSettlement {
    /// The reward that was credited to the referrer's record.
    pub dynamic_reward: u64,
    /// The payment to the referrer, where there is one to make.
    pub transfer: Option<TransferOrder>,
    pub event: DynamicReferralProcessed,
}

/// What a recorded purchase leaves for the caller to carry out.
#[derive(Clone, Debug, PartialEq, Eq)]
pub struct PurchaseOutcome {
    /// The new record, unclaimed.
    pub purchase_account: PurchaseAccount,
    /// The referral, where a code and a referrer's record were both given.
    pub referral: Option<ReferralSettlement>,
    pub event: PurchaseProcessed,
}

/// What a claim leaves for the caller to carry out.
#[derive(Clone, Debug, PartialEq, Eq)]
pub struct ClaimOutcome {
    /// The rebate.
    pub rewards_amount: u64,
    /// The payment to the buyer, where the rebate is not zero.
    pub transfer: Option<TransferOrder>,
    pub event: RewardsClaimed,
}

/// The referrer that a purchase names: the record that came with the
/// purchase, where a code came too and it is the record's own. Without a
/// code, without a record, or with a record under another code, the
/// purchase names no referrer.
pub open spec fn named_referrer(
    referral_code: Option<String>,
    referrer_account: Option<ReferrerAccount>,
) -> Option<ReferrerAccount> {
    match (referral_code, referrer_account) {
        (Some(code), Some(referrer)) if referrer.referral_code@ == code@ => Some(referrer),
        _ => None,
    }
}

/// Why a purchase is refused, if it is: it is below the minimum, or the
/// buyer owns the record of the referrer that it names.
pub open spec fn purchase_refusal(
    program_state: ProgramState,
    buyer: Pubkey,
    purchase_amount: u64,
    referral_code: Option<String>,
    referrer_account: Option<ReferrerAccount>,
) -> Option<ErrorCode> {
    if purchase_amount < program_state.min_purchase_amount {
        Some(ErrorCode::PurchaseAmountTooLow)
    } else if named_referrer(referral_code, referrer_account) is Some && named_referrer(
        referral_code,
        referrer_account,
    )->0.authority == buyer {
        Some(ErrorCode::SelfReferralNotAllowed)
    } else {
        None
    }
}

/// The reward that `referrer` earns on a purchase, from the program's base
/// rate and minimum and the record's ratio and holdings as they stand.
pub open spec fn referral_reward(
    program_state: ProgramState,
    referrer: ReferrerAccount,
    purchase_amount: u64,
) -> u64 {
    dynamic_reward(
        program_state.base_reward_rate as int,
        referrer.holding_ratio as int,
        referrer.current_holdings as int,
        purchase_amount as int,
        program_state.min_holdings_for_referral as int,
    ) as u64
}

/// The referrer's counters can take one more referral and its reward.
pub open spec fn counters_have_room(
    program_state: ProgramState,
    referrer: ReferrerAccount,
    purchase_amount: u64,
) -> bool {
    &&& referrer.total_referrals < u32::MAX
    &&& referrer.total_rewards_earned + referral_reward(program_state, referrer, purchase_amount)
        <= u64::MAX
}

/// The referrer's record after one more referral: one is added to the
/// count, the reward to the earnings, and the activity is stamped.
pub open spec fn credited(
    program_state: ProgramState,
    referrer: ReferrerAccount,
    purchase_amount: u64,
    now: i64,
) -> ReferrerAccount {
    ReferrerAccount {
        total_referrals: (referrer.total_referrals + 1) as u32,
        total_rewards_earned: (referrer.total_rewards_earned + referral_reward(
            program_state,
            referrer,
            purchase_amount,
        )) as u64,
        last_activity: now,
        ..referrer
    }
}

/// What a rewarded referral hands out. The event carries the ratio and the
/// holdings that the reward was computed from.
pub open spec fn settlement_of(
    program_state: ProgramState,
    buyer: Pubkey,
    referral_code: String,
    referrer: ReferrerAccount,
    referrer_token_account: Option<Pubkey>,
    purchase_amount: u64,
    now: i64,
) -> ReferralSettlement {
    let reward = referral_reward(program_state, referrer, purchase_amount);
    ReferralSettlement {
        dynamic_reward: reward,
        transfer: payout_order(program_state, referrer_token_account, reward),
        event: DynamicReferralProcessed {
            buyer,
            referrer: referrer.authority,
            referral_code,
            purchase_amount,
            dynamic_reward: reward,
            holding_ratio: referrer.holding_ratio,
            referrer_holdings: referrer.current_holdings,
            timestamp: now,
        },
    }
}

/// A purchase can be carried out: where it is accepted and names a
/// referrer, the referrer's counters can take the referral and its reward.
/// A purchase that is refused, or that names no referrer, always can.
pub open spec fn purchase_fits(
    program_state: ProgramState,
    buyer: Pubkey,
    purchase_amount: u64,
    referral_code: Option<String>,
    referrer_account: Option<ReferrerAccount>,
) -> bool {
    purchase_refusal(program_state, buyer, purchase_amount, referral_code, referrer_account)
        is None ==> (named_referrer(referral_code, referrer_account) matches Some(referrer)
        ==> counters_have_room(program_state, referrer, purchase_amount))
}

/// Tells whether the referrer's counters can take one more referral on a
/// purchase of `purchase_amount`.
pub fn referral_has_room(
    program_state: &ProgramState,
    referrer: &ReferrerAccount,
    purchase_amount: u64,
) -> (room: bool)
    ensures
        room == counters_have_room(*program_state, *referrer, purchase_amount),
{
    let reward = calculate_dynamic_reward(
        program_state.base_reward_rate,
        referrer.holding_ratio,
        referrer.current_holdings,
        purchase_amount,
        program_state.min_holdings_for_referral,
    );
    referrer.total_referrals < u32::MAX && reward <= u64::MAX - referrer.total_rewards_earned
}

/// Tells whether a purchase can be carried out, from the arguments that
/// [`process_purchase`] will be given: exactly what that function asks of
/// its caller.
pub fn purchase_can_proceed(
    program_state: &ProgramState,
    buyer: &Pubkey,
    purchase_amount: u64,
    referral_code: &Option<String>,
    referrer_account: &Option<ReferrerAccount>,
) -> (fits: bool)
    ensures
        fits == purchase_fits(
            *program_state,
            *buyer,
            purchase_amount,
            *referral_code,
            *referrer_account,
        ),
{
    if purchase_amount < program_state.min_purchase_amount {
        return true;
    }
    match (referral_code, referrer_account) {
        (Some(code), Some(referrer)) => {
            if referrer.referral_code == *code {
                if same_identity(&referrer.authority, buyer) {
                    true
                } else {
                    referral_has_room(program_state, referrer, purchase_amount)
                }
            } else {
                true
            }
        },
        _ => true,
    }
}

/// Records a purchase by `buyer`, and rewards the referrer that it names.
///
/// A purchase names a referrer where `referral_code` is given and
/// `referrer_account` holds the record registered under that code; see
/// [`named_referrer`]. Otherwise the purchase is recorded and no referral is
/// accounted for. `referrer_token_account` is where the referrer's reward
/// goes; without one, or with a reward of zero, the reward is credited and
/// no tokens move.
///
/// A refused purchase leaves the referrer's record as it was, and hands out
/// no record and no order.
pub fn process_purchase(
    program_state: &ProgramState,
    buyer: Pubkey,
    purchase_amount: u64,
    referral_code: Option<String>,
    referrer_account: &mut Option<ReferrerAccount>,
    referrer_token_account: Option<Pubkey>,
    now: i64,
    bump: u8,
) -> (result: Result<PurchaseOutcome, ErrorCode>)
    requires
        purchase_fits(
            *program_state,
            buyer,
            purchase_amount,
            referral_code,
            *old(referrer_account),
        ),
    ensures
        match result {
            Ok(outcome) => {
                &&& purchase_refusal(
                    *program_state,
                    buyer,
                    purchase_amount,
                    referral_code,
                    *old(referrer_account),
                ) is None
                &&& outcome.purchase_account == (PurchaseAccount {
                    buyer,
                    amount: purchase_amount,
                    timestamp: now,
                    referral_code,
                    rewards_claimed: false,
                    bump,
                })
                &&& outcome.event == (PurchaseProcessed {
                    buyer,
                    amount: purchase_amount,
                    timestamp: now,
                })
                &&& match named_referrer(referral_code, *old(referrer_account)) {
                    Some(referrer) => {
                        &&& *final(referrer_account) == Some(
                            credited(*program_state, referrer, purchase_amount, now),
                        )
                        &&& outcome.referral == Some(
                            settlement_of(
                                *program_state,
                                buyer,
                                referral_code->0,
                                referrer,
                                referrer_token_account,
                                purchase_amount,
                                now,
                            ),
                        )
                    },
                    None => {
                        &&& *final(referrer_account) == *old(referrer_account)
                        &&& outcome.referral is None
                    },
                }
            },
            Err(error) => {
                &&& purchase_refusal(
                    *program_state,
                    buyer,
                    purchase_amount,
                    referral_code,
                    *old(referrer_account),
                ) == Some(error)
                &&& *final(referrer_account) == *old(referrer_account)
            },
        },
        result is Ok ==> purchase_amount >= program_state.min_purchase_amount,
        (*old(referrer_account) matches Some(before) && before.well_formed())
            ==> (*final(referrer_account) matches Some(after) && after.well_formed()),
        match (*old(referrer_account), *final(referrer_account)) {
            (Some(before), Some(after)) => {
                &&& after.continues(before)
                &&& after.tier == before.tier
                &&& after.holding_ratio == before.holding_ratio
                &&& after.current_holdings == before.current_holdings
            },
            (None, None) => true,
            _ => false,
        },
{
    if purchase_amount < program_state.min_purchase_amount {
        return Err(ErrorCode::PurchaseAmountTooLow);
    }
    let recorded_code = match &referral_code {
        Some(code) => Some(code.clone()),
        None => None,
    };
    let purchase_account = PurchaseAccount {
        buyer,
        amount: purchase_amount,
        timestamp: now,
        referral_code: recorded_code,
        rewards_claimed: false,
        bump,
    };
    let mut referral: Option<ReferralSettlement> = None;
    if let Some(code) = referral_code {
        match referrer_account {
            Some(referrer) => {
                if referrer.referral_code == code {
                    if same_identity(&referrer.authority, &buyer) {
                        return Err(ErrorCode::SelfReferralNotAllowed);
                    }
                    let reward = calculate_dynamic_reward(
                        program_state.base_reward_rate,
                        referrer.holding_ratio,
                        referrer.current_holdings,
                        purchase_amount,
                        program_state.min_holdings_for_referral,
                    );
                    referrer.total_referrals = referrer.total_referrals + 1;
                    referrer.total_rewards_earned = referrer.total_rewards_earned + reward;
                    referrer.last_activity = now;
                    referral = Some(
                        ReferralSettlement {
                            dynamic_reward: reward,
                            transfer: authorize_payout(
                                program_state,
                                referrer_token_account,
                                reward,
                            ),
                            event: DynamicReferralProcessed {
                                buyer,
                                referrer: referrer.authority,
                                referral_code: code,
                                purchase_amount,
                                dynamic_reward: reward,
                                holding_ratio: referrer.holding_ratio,
                                referrer_holdings: referrer.current_holdings,
                                timestamp: now,
                            },
                        },
                    );
                }
            },
            None => {},
        }
    }
    Ok(
        PurchaseOutcome {
            purchase_account,
            referral,
            event: PurchaseProcessed { buyer, amount: purchase_amount, timestamp: now },
        },
    )
}

impl PurchaseOutcome {
    /// The notifications of the purchase in the order in which they go to
    /// the event log: that of the referral first, where there is one, then
    /// that of the purchase.
    pub open spec fn notifications_of(self) -> Seq<PurchaseNotification> {
        match self.referral {
            Some(referral) => seq![
                PurchaseNotification::Referral(referral.event),
                PurchaseNotification::Purchase(self.event),
            ],
            None => seq![PurchaseNotification::Purchase(self.event)],
        }
    }

    /// Hands the notifications out in the order in which they are to be
    /// emitted.
    pub fn into_notifications(self) -> (notifications: Vec<PurchaseNotification>)
        ensures
            notifications@ == self.notifications_of(),
    {
        let mut notifications: Vec<PurchaseNotification> = Vec::new();
        if let Some(referral) = self.referral {
            notifications.push(PurchaseNotification::Referral(referral.event));
        }
        notifications.push(PurchaseNotification::Purchase(self.event));
        notifications
    }
}

/// Why a claim is refused, if it is: the rebate was paid before, or the
/// claimant is not the buyer.
pub open spec fn claim_refusal(purchase_account: PurchaseAccount, buyer: Pubkey) -> Option<
    ErrorCode,
> {
    if purchase_account.rewards_claimed {
        Some(ErrorCode::RewardsAlreadyClaimed)
    } else if purchase_account.buyer != buyer {
        Some(ErrorCode::UnauthorizedClaim)
    } else {
        None
    }
}

/// The rebate on a purchase: the program's percentage of its amount.
pub open spec fn rebate_of(program_state: ProgramState, purchase_account: PurchaseAccount) -> u64 {
    step_share(purchase_account.amount as int, program_state.rewards_percentage as int) as u64
}

/// The record of a purchase after its rebate was claimed.
pub open spec fn claimed(purchase_account: PurchaseAccount) -> PurchaseAccount {
    PurchaseAccount { rewards_claimed: true, ..purchase_account }
}

/// What a claim by `buyer` takes out of the vault: the rebate where the
/// claim is accepted, nothing where it is refused.
pub open spec fn claim_draw(
    program_state: ProgramState,
    purchase_account: PurchaseAccount,
    buyer: Pubkey,
) -> nat {
    if claim_refusal(purchase_account, buyer) is None {
        rebate_of(program_state, purchase_account) as nat
    } else {
        0
    }
}

/// Claims the rebate of a purchase for `buyer`, to be paid to
/// `buyer_token_account`.
///
/// An accepted claim marks the record; the caller carries the order out
/// within the same atomic operation. A refused claim leaves the record as
/// it was and hands out no order.
pub fn claim_rewards(
    program_state: &ProgramState,
    purchase_account: &mut PurchaseAccount,
    buyer: &Pubkey,
    buyer_token_account: Pubkey,
    now: i64,
) -> (result: Result<ClaimOutcome, ErrorCode>)
    ensures
        match result {
            Ok(outcome) => {
                &&& claim_refusal(*old(purchase_account), *buyer) is None
                &&& *final(purchase_account) == claimed(*old(purchase_account))
                &&& outcome.rewards_amount == rebate_of(*program_state, *old(purchase_account))
                &&& outcome.transfer == payout_order(
                    *program_state,
                    Some(buyer_token_account),
                    outcome.rewards_amount,
                )
                &&& outcome.event == (RewardsClaimed {
                    buyer: *buyer,
                    amount: outcome.rewards_amount,
                    timestamp: now,
                })
                &&& drawn_from_vault(outcome.transfer) == claim_draw(
                    *program_state,
                    *old(purchase_account),
                    *buyer,
                )
            },
            Err(error) => {
                &&& claim_refusal(*old(purchase_account), *buyer) == Some(error)
                &&& *final(purchase_account) == *old(purchase_account)
                &&& claim_draw(*program_state, *old(purchase_account), *buyer) == 0
            },
        },
{
    if purchase_account.rewards_claimed {
        return Err(ErrorCode::RewardsAlreadyClaimed);
    }
    if !same_identity(&purchase_account.buyer, buyer) {
        return Err(ErrorCode::UnauthorizedClaim);
    }
    let rewards_amount = basis_point_share(
        purchase_account.amount,
        program_state.rewards_percentage,
    );
    purchase_account.rewards_claimed = true;
    let transfer = authorize_payout(program_state, Some(buyer_token_account), rewards_amount);
    Ok(
        ClaimOutcome {
            rewards_amount,
            transfer,
            event: RewardsClaimed {
                buyer: purchase_account.buyer,
                amount: rewards_amount,
                timestamp: now,
            },
        },
    )
}

/// A rebate is paid once. After an accepted claim every further claim on
/// the record is refused as claimed before, whoever makes it and whatever
/// the program's parameters have become, and the two claims together take
/// the rebate out of the vault exactly once.
pub proof fn lemma_claim_pays_once(
    program_state: ProgramState,
    later_state: ProgramState,
    purchase_account: PurchaseAccount,
    buyer: Pubkey,
    later_claimant: Pubkey,
)
    requires
        claim_refusal(purchase_account, buyer) is None,
    ensures
        claim_refusal(claimed(purchase_account), later_claimant) == Some(
            ErrorCode::RewardsAlreadyClaimed,
        ),
        claim_draw(program_state, purchase_account, buyer) + claim_draw(
            later_state,
            claimed(purchase_account),
            later_claimant,
        ) == rebate_of(program_state, purchase_account),
{
}

/// Only the buyer of an unclaimed purchase can claim its rebate.
pub proof fn lemma_claim_buyer_only(purchase_account: PurchaseAccount, claimant: Pubkey)
    ensures
        claim_refusal(purchase_account, claimant) is None <==> !purchase_account.rewards_claimed
            && claimant == purchase_account.buyer,
{
}

/// A buyer cannot be rewarded as the referrer of the buyer's own purchase:
/// with the code of a record that the buyer owns, no purchase is accepted.
pub proof fn lemma_no_self_referral(
    program_state: ProgramState,
    buyer: Pubkey,
    purchase_amount: u64,
    referral_code: String,
    referrer: ReferrerAccount,
)
    requires
        referrer.authority == buyer,
        referrer.referral_code@ == referral_code@,
    ensures
        purchase_refusal(
            program_state,
            buyer,
            purchase_amount,
            Some(referral_code),
            Some(referrer),
        ) is Some,
        purchase_amount >= program_state.min_purchase_amount ==> purchase_refusal(
            program_state,
            buyer,
            purchase_amount,
            Some(referral_code),
            Some(referrer),
        ) == Some(ErrorCode::SelfReferralNotAllowed),
{
}

} // verus!
