//! The reward engine: fixed-point arithmetic in basis points.
//!
//! A reward is built from three levers that multiply: the volume of the
//! purchase, the share of the initial holding that the referrer still
//! keeps, and the size of the referrer's holding against the program minimum.
//! Every step rounds toward zero and keeps the low 64 bits of its result.

use vstd::prelude::*;

verus! {

/// One whole, in basis points.
pub const BASIS_POINTS: u64 = 10_000;

/// Multiplier for holdings of at least ten times the minimum.
pub const MULTIPLIER_TEN_FOLD: u16 = 15_000;

/// Multiplier for holdings of at least five times the minimum.
pub const MULTIPLIER_FIVE_FOLD: u16 = 12_500;

/// Multiplier for holdings of at least twice the minimum.
pub const MULTIPLIER_TWO_FOLD: u16 = 11_000;

/// Multiplier for any smaller holding.
pub const MULTIPLIER_BASE: u16 = 10_000;

/// `rate_bp` ten-thousandths of `amount`, rounded toward zero.
pub open spec fn bp_share(amount: int, rate_bp: int) -> int {
    amount * rate_bp / 10_000
}

/// The low 64 bits of a non-negative number.
pub open spec fn low64(x: int) -> int {
    x % 0x1_0000_0000_0000_0000
}

/// What one step of the engine yields: the share, cut to 64 bits.
pub open spec fn step_share(amount: int, rate_bp: int) -> int {
    low64(bp_share(amount, rate_bp))
}

/// The multiplier, in basis points, that a holding earns against the minimum.
/// The highest bracket is tried first.
pub open spec fn multiplier_of(referrer_holdings: int, min_holdings: int) -> int {
    if referrer_holdings >= min_holdings * 10 {
        15_000
    } else if referrer_holdings >= min_holdings * 5 {
        12_500
    } else if referrer_holdings >= min_holdings * 2 {
        11_000
    } else {
        10_000
    }
}

/// The reward of a referrer for one purchase.
pub open spec fn dynamic_reward(
    base_rate: int,
    holding_ratio: int,
    referrer_holdings: int,
    purchase_amount: int,
    min_holdings: int,
) -> int {
    let base_reward = step_share(purchase_amount, base_rate);
    let holding_adjusted = step_share(base_reward, holding_ratio);
    step_share(holding_adjusted, multiplier_of(referrer_holdings, min_holdings))
}

/// The reward as the plain composition of the three floors, with nothing cut.
pub open spec fn uncut_reward(
    base_rate: int,
    holding_ratio: int,
    referrer_holdings: int,
    purchase_amount: int,
    min_holdings: int,
) -> int {
    bp_share(
        bp_share(bp_share(purchase_amount, base_rate), holding_ratio),
        multiplier_of(referrer_holdings, min_holdings),
    )
}

/// A share at a rate of at most one whole is no larger than the amount.
pub proof fn lemma_share_within_amount(amount: int, rate_bp: int)
    requires
        0 <= amount,
        0 <= rate_bp <= 10_000,
    ensures
        0 <= bp_share(amount, rate_bp) <= amount,
{
    assert(0 <= amount * rate_bp <= amount * 10_000) by (nonlinear_arith)
        requires
            0 <= amount,
            0 <= rate_bp <= 10_000,
    ;
}

/// `rate_bp` ten-thousandths of `amount`, rounded toward zero, low 64 bits.
pub fn basis_point_share(amount: u64, rate_bp: u16) -> (share: u64)
    ensures
        share == step_share(amount as int, rate_bp as int),
{
    let wide_amount: u128 = amount as u128;
    let wide_rate: u128 = rate_bp as u128;
    assert(wide_amount * wide_rate <= 0xffff_ffff_ffff_ffff * 0xffff) by (nonlinear_arith)
        requires
            wide_amount <= 0xffff_ffff_ffff_ffff,
            wide_rate <= 0xffff,
    ;
    let quotient: u128 = wide_amount * wide_rate / 10_000;
    let low: u128 = quotient % 0x1_0000_0000_0000_0000;
    low as u64
}

/// The multiplier that a holding earns; see [`multiplier_of`].
pub fn holdings_multiplier(referrer_holdings: u64, min_holdings: u64) -> (multiplier: u16)
    ensures
        multiplier == multiplier_of(referrer_holdings as int, min_holdings as int),
{
    let holdings: u128 = referrer_holdings as u128;
    let minimum: u128 = min_holdings as u128;
    if holdings >= minimum * 10 {
        MULTIPLIER_TEN_FOLD
    } else if holdings >= minimum * 5 {
        MULTIPLIER_FIVE_FOLD
    } else if holdings >= minimum * 2 {
        MULTIPLIER_TWO_FOLD
    } else {
        MULTIPLIER_BASE
    }
}

/// Computes the reward of a referrer for one purchase.
///
/// The result is a function of the five arguments alone: the same arguments
/// give the same reward, whenever and wherever the call is made.
pub fn calculate_dynamic_reward(
    base_rate: u16,
    holding_ratio: u16,
    referrer_holdings: u64,
    purchase_amount: u64,
    min_holdings: u64,
) -> (reward: u64)
    ensures
        reward == dynamic_reward(
            base_rate as int,
            holding_ratio as int,
            referrer_holdings as int,
            purchase_amount as int,
            min_holdings as int,
        ),
{
    let base_reward = basis_point_share(purchase_amount, base_rate);
    let holding_adjusted_reward = basis_point_share(base_reward, holding_ratio);
    let multiplier = holdings_multiplier(referrer_holdings, min_holdings);
    basis_point_share(holding_adjusted_reward, multiplier)
}

/// Where each of the three floors fits in 64 bits, no step cuts anything:
/// the reward is their plain composition.
pub proof fn lemma_reward_uncut_when_steps_fit(
    base_rate: u16,
    holding_ratio: u16,
    referrer_holdings: u64,
    purchase_amount: u64,
    min_holdings: u64,
)
    requires
        bp_share(purchase_amount as int, base_rate as int) <= u64::MAX,
        bp_share(bp_share(purchase_amount as int, base_rate as int), holding_ratio as int)
            <= u64::MAX,
        uncut_reward(
            base_rate as int,
            holding_ratio as int,
            referrer_holdings as int,
            purchase_amount as int,
            min_holdings as int,
        ) <= u64::MAX,
    ensures
        dynamic_reward(
            base_rate as int,
            holding_ratio as int,
            referrer_holdings as int,
            purchase_amount as int,
            min_holdings as int,
        ) == uncut_reward(
            base_rate as int,
            holding_ratio as int,
            referrer_holdings as int,
            purchase_amount as int,
            min_holdings as int,
        ),
{
    let base = bp_share(purchase_amount as int, base_rate as int);
    assert(0 <= purchase_amount * base_rate) by (nonlinear_arith)
        requires
            0 <= purchase_amount,
            0 <= base_rate,
    ;
    let adjusted = bp_share(base, holding_ratio as int);
    assert(0 <= base * holding_ratio) by (nonlinear_arith)
        requires
            0 <= base,
            0 <= holding_ratio,
    ;
    let multiplier = multiplier_of(referrer_holdings as int, min_holdings as int);
    assert(0 <= adjusted * multiplier) by (nonlinear_arith)
        requires
            0 <= adjusted,
            10_000 <= multiplier,
    ;
}

/// Where the rate and the ratio are at most one whole and the uncut reward
/// fits in 64 bits, the reward is the plain composition of the three floors.
pub proof fn lemma_reward_uncut_in_range(
    base_rate: u16,
    holding_ratio: u16,
    referrer_holdings: u64,
    purchase_amount: u64,
    min_holdings: u64,
)
    requires
        base_rate <= 10_000,
        holding_ratio <= 10_000,
        uncut_reward(
            base_rate as int,
            holding_ratio as int,
            referrer_holdings as int,
            purchase_amount as int,
            min_holdings as int,
        ) <= u64::MAX,
    ensures
        dynamic_reward(
            base_rate as int,
            holding_ratio as int,
            referrer_holdings as int,
            purchase_amount as int,
            min_holdings as int,
        ) == uncut_reward(
            base_rate as int,
            holding_ratio as int,
            referrer_holdings as int,
            purchase_amount as int,
            min_holdings as int,
        ),
{
    let base = bp_share(purchase_amount as int, base_rate as int);
    lemma_share_within_amount(purchase_amount as int, base_rate as int);
    lemma_share_within_amount(base, holding_ratio as int);
    lemma_reward_uncut_when_steps_fit(
        base_rate,
        holding_ratio,
        referrer_holdings,
        purchase_amount,
        min_holdings,
    );
}

/// The levers multiply: a base rate of zero, a ratio of zero or a purchase
/// of nothing each bring the reward to zero, whatever the others are.
pub proof fn lemma_reward_zero_lever(
    base_rate: u16,
    holding_ratio: u16,
    referrer_holdings: u64,
    purchase_amount: u64,
    min_holdings: u64,
)
    requires
        base_rate == 0 || holding_ratio == 0 || purchase_amount == 0,
    ensures
        dynamic_reward(
            base_rate as int,
            holding_ratio as int,
            referrer_holdings as int,
            purchase_amount as int,
            min_holdings as int,
        ) == 0,
{
    let base = step_share(purchase_amount as int, base_rate as int);
    assert(base_rate == 0 || purchase_amount == 0 ==> purchase_amount * base_rate == 0)
        by (nonlinear_arith);
    let adjusted = step_share(base, holding_ratio as int);
    assert(base == 0 || holding_ratio == 0 ==> base * holding_ratio == 0) by (nonlinear_arith);
    assert(adjusted == 0);
    let multiplier = multiplier_of(referrer_holdings as int, min_holdings as int);
    assert(adjusted * multiplier == 0) by (nonlinear_arith)
        requires
            adjusted == 0,
    ;
}

} // verus!
