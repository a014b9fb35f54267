//! The referrers: registration, and the two refreshes that bring a record
//! back in line with its owner's live balance.

use anchor_lang::prelude::Pubkey;
use vstd::prelude::*;
use crate::error::ErrorCode;
use crate::events::{HoldingsRatioUpdated, ReferrerRegistered, TierUpdated};
use crate::identity::same_identity;
use crate::state::{
    code_length, ProgramState, ReferrerAccount, FULL_HOLDING_RATIO, MAX_REFERRAL_CODE_LEN,
    MIN_REFERRAL_CODE_LEN,
};
use crate::tier::{classify, tier_of, Tier};

verus! {

/// Why a registration is refused, if it is: the code is too long, or too
/// short, or the balance is below what a referrer must hold.
pub open spec fn registration_refusal(
    program_state: ProgramState,
    referral_code: Seq<char>,
    observed_balance: u64,
) -> Option<ErrorCode> {
    if code_length(referral_code) > MAX_REFERRAL_CODE_LEN {
        Some(ErrorCode::ReferralCodeTooLong)
    } else if code_length(referral_code) < MIN_REFERRAL_CODE_LEN {
        Some(ErrorCode::ReferralCodeTooShort)
    } else if observed_balance < program_state.min_holdings_for_referral {
        Some(ErrorCode::InsufficientHoldingsForReferral)
    } else {
        None
    }
}

/// The record of a referrer who has just registered.
pub open spec fn new_referrer(
    authority: Pubkey,
    referral_code: String,
    observed_balance: u64,
    now: i64,
    bump: u8,
) -> ReferrerAccount {
    ReferrerAccount {
        authority,
        referral_code,
        total_referrals: 0,
        total_rewards_earned: 0,
        tier: Tier::Unranked,
        last_activity: now,
        is_active: true,
        initial_holdings: observed_balance,
        current_holdings: observed_balance,
        holding_ratio: FULL_HOLDING_RATIO,
        bump,
    }
}

/// Registers `authority` as a referrer under `referral_code`.
///
/// `observed_balance` is the identity's token balance as the ledger shows
/// it, `now` the ledger's time, and `bump` the nonce of the record's address.
pub fn register_referrer(
    program_state: &ProgramState,
    authority: Pubkey,
    referral_code: String,
    observed_balance: u64,
    now: i64,
    bump: u8,
) -> (result: Result<(ReferrerAccount, ReferrerRegistered), ErrorCode>)
    ensures
        match result {
            Ok((account, event)) => {
                &&& registration_refusal(*program_state, referral_code@, observed_balance) is None
                &&& account == new_referrer(authority, referral_code, observed_balance, now, bump)
                &&& account.well_formed()
                &&& event == (ReferrerRegistered {
                    authority,
                    referral_code,
                    initial_holdings: observed_balance,
                    timestamp: now,
                })
            },
            Err(error) => registration_refusal(*program_state, referral_code@, observed_balance)
                == Some(error),
        },
{
    let length = referral_code.as_str().unicode_len();
    if length > MAX_REFERRAL_CODE_LEN {
        return Err(ErrorCode::ReferralCodeTooLong);
    }
    if length < MIN_REFERRAL_CODE_LEN {
        return Err(ErrorCode::ReferralCodeTooShort);
    }
    if observed_balance < program_state.min_holdings_for_referral {
        return Err(ErrorCode::InsufficientHoldingsForReferral);
    }
    let account = ReferrerAccount {
        authority,
        referral_code: referral_code.clone(),
        total_referrals: 0,
        total_rewards_earned: 0,
        tier: Tier::Unranked,
        last_activity: now,
        is_active: true,
        initial_holdings: observed_balance,
        current_holdings: observed_balance,
        holding_ratio: FULL_HOLDING_RATIO,
        bump,
    };
    let event = ReferrerRegistered {
        authority,
        referral_code,
        initial_holdings: observed_balance,
        timestamp: now,
    };
    Ok((account, event))
}

/// A balance at the minimum registers; a balance one unit below it does not.
pub proof fn lemma_registration_threshold(program_state: ProgramState, referral_code: Seq<char>)
    requires
        MIN_REFERRAL_CODE_LEN <= code_length(referral_code) <= MAX_REFERRAL_CODE_LEN,
    ensures
        registration_refusal(
            program_state,
            referral_code,
            program_state.min_holdings_for_referral,
        ) is None,
        program_state.min_holdings_for_referral > 0 ==> registration_refusal(
            program_state,
            referral_code,
            (program_state.min_holdings_for_referral - 1) as u64,
        ) == Some(ErrorCode::InsufficientHoldingsForReferral),
        forall|observed_balance: u64|
            (#[trigger] registration_refusal(program_state, referral_code, observed_balance)
                is None) <==> observed_balance >= program_state.min_holdings_for_referral,
{
}

/// The observed balance over the initial one, in basis points, rounded
/// toward zero and capped at one whole. Meant for an initial balance that is
/// not zero.
pub open spec fn ratio_of(observed_balance: u64, initial_holdings: u64) -> int {
    let scaled = observed_balance * 10_000 / (initial_holdings as int);
    if scaled > 10_000 {
        10_000
    } else {
        scaled
    }
}

/// The holding ratio for an observed balance; see [`ratio_of`].
pub fn holding_ratio_for(observed_balance: u64, initial_holdings: u64) -> (ratio: u16)
    requires
        initial_holdings > 0,
    ensures
        ratio == ratio_of(observed_balance, initial_holdings),
        ratio <= FULL_HOLDING_RATIO,
{
    let scaled: u128 = observed_balance as u128 * 10_000 / (initial_holdings as u128);
    if scaled > 10_000 {
        FULL_HOLDING_RATIO
    } else {
        scaled as u16
    }
}

/// The ratio never leaves the range from nothing to one whole. It is one
/// whole exactly when the balance has not fallen below the initial one.
pub proof fn lemma_ratio_capped(observed_balance: u64, initial_holdings: u64)
    requires
        initial_holdings > 0,
    ensures
        0 <= ratio_of(observed_balance, initial_holdings) <= 10_000,
        observed_balance >= initial_holdings <==> ratio_of(observed_balance, initial_holdings)
            == 10_000,
{
    let observed = observed_balance as int;
    let initial = initial_holdings as int;
    assert(observed >= initial <==> observed * 10_000 / initial >= 10_000) by (nonlinear_arith)
        requires
            initial > 0,
            observed >= 0,
    ;
    assert(observed * 10_000 / initial >= 0) by (nonlinear_arith)
        requires
            initial > 0,
            observed >= 0,
    ;
}

/// The record after its holdings were observed anew. The ratio follows the
/// balance, except where the initial balance is zero: there it stays.
pub open spec fn with_holdings(account: ReferrerAccount, observed_balance: u64, now: i64)
    -> ReferrerAccount {
    ReferrerAccount {
        current_holdings: observed_balance,
        holding_ratio: if account.initial_holdings > 0 {
            ratio_of(observed_balance, account.initial_holdings) as u16
        } else {
            account.holding_ratio
        },
        last_activity: now,
        ..account
    }
}

/// Brings a referrer's holdings and ratio in line with `observed_balance`,
/// on behalf of `authority`, who must own the record.
pub fn update_holdings_ratio(
    referrer_account: &mut ReferrerAccount,
    authority: &Pubkey,
    observed_balance: u64,
    now: i64,
) -> (result: Result<HoldingsRatioUpdated, ErrorCode>)
    ensures
        match result {
            Ok(event) => {
                &&& old(referrer_account).authority == *authority
                &&& *final(referrer_account) == with_holdings(
                    *old(referrer_account),
                    observed_balance,
                    now,
                )
                &&& event == (HoldingsRatioUpdated {
                    authority: *authority,
                    previous_holdings: old(referrer_account).current_holdings,
                    new_holdings: observed_balance,
                    holding_ratio: final(referrer_account).holding_ratio,
                    timestamp: now,
                })
            },
            Err(error) => {
                &&& old(referrer_account).authority != *authority
                &&& error == ErrorCode::UnauthorizedClaim
                &&& *final(referrer_account) == *old(referrer_account)
            },
        },
        old(referrer_account).initial_holdings > 0 && result is Ok
            ==> final(referrer_account).holding_ratio <= FULL_HOLDING_RATIO,
        old(referrer_account).well_formed() ==> final(referrer_account).well_formed(),
        final(referrer_account).continues(*old(referrer_account)),
        final(referrer_account).tier == old(referrer_account).tier,
{
    if !same_identity(&referrer_account.authority, authority) {
        return Err(ErrorCode::UnauthorizedClaim);
    }
    let previous_holdings = referrer_account.current_holdings;
    referrer_account.current_holdings = observed_balance;
    if referrer_account.initial_holdings > 0 {
        referrer_account.holding_ratio = holding_ratio_for(
            observed_balance,
            referrer_account.initial_holdings,
        );
    }
    referrer_account.last_activity = now;
    Ok(
        HoldingsRatioUpdated {
            authority: referrer_account.authority,
            previous_holdings,
            new_holdings: observed_balance,
            holding_ratio: referrer_account.holding_ratio,
            timestamp: now,
        },
    )
}

/// The record after its tier was set anew from `observed_balance`.
pub open spec fn with_tier(
    program_state: ProgramState,
    account: ReferrerAccount,
    observed_balance: u64,
    now: i64,
) -> ReferrerAccount {
    ReferrerAccount {
        tier: tier_of(
            observed_balance,
            program_state.bronze_threshold,
            program_state.silver_threshold,
            program_state.gold_threshold,
        ),
        last_activity: now,
        ..account
    }
}

/// Sets a referrer's tier from `observed_balance` and the program's
/// thresholds, on behalf of `authority`, who must own the record.
pub fn update_tier(
    program_state: &ProgramState,
    referrer_account: &mut ReferrerAccount,
    authority: &Pubkey,
    observed_balance: u64,
    now: i64,
) -> (result: Result<TierUpdated, ErrorCode>)
    ensures
        match result {
            Ok(event) => {
                &&& old(referrer_account).authority == *authority
                &&& *final(referrer_account) == with_tier(
                    *program_state,
                    *old(referrer_account),
                    observed_balance,
                    now,
                )
                &&& event == (TierUpdated {
                    authority: *authority,
                    old_tier: old(referrer_account).tier,
                    new_tier: final(referrer_account).tier,
                    balance: observed_balance,
                    timestamp: now,
                })
            },
            Err(error) => {
                &&& old(referrer_account).authority != *authority
                &&& error == ErrorCode::UnauthorizedClaim
                &&& *final(referrer_account) == *old(referrer_account)
            },
        },
        old(referrer_account).well_formed() ==> final(referrer_account).well_formed(),
        final(referrer_account).continues(*old(referrer_account)),
        final(referrer_account).holding_ratio == old(referrer_account).holding_ratio,
{
    if !same_identity(&referrer_account.authority, authority) {
        return Err(ErrorCode::UnauthorizedClaim);
    }
    let new_tier = classify(
        observed_balance,
        program_state.bronze_threshold,
        program_state.silver_threshold,
        program_state.gold_threshold,
    );
    let old_tier = referrer_account.tier;
    referrer_account.tier = new_tier;
    referrer_account.last_activity = now;
    Ok(
        TierUpdated {
            authority: referrer_account.authority,
            old_tier,
            new_tier,
            balance: observed_balance,
            timestamp: now,
        },
    )
}

} // verus!
