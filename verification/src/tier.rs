//! Loyalty tiers and the classification of a balance.

use vstd::prelude::*;

verus! {

/// Loyalty tier of a referrer, lowest first.
#[derive(Clone, Copy, Debug, PartialEq, Eq, Structural)]
pub enum Tier {
    Unranked,
    Bronze,
    Silver,
    Gold,
}

impl Tier {
    /// The place of a tier in the order, from 0 for no rank to 3 for gold.
    pub open spec fn rank_of(self) -> nat {
        match self {
            Tier::Unranked => 0,
            Tier::Bronze => 1,
            Tier::Silver => 2,
            Tier::Gold => 3,
        }
    }

    /// The place of this tier in the order.
    pub fn rank(&self) -> (rank: u8)
        ensures
            rank == self.rank_of(),
    {
        match self {
            Tier::Unranked => 0,
            Tier::Bronze => 1,
            Tier::Silver => 2,
            Tier::Gold => 3,
        }
    }
}

/// The balance that a tier asks for; no rank asks for nothing.
pub open spec fn threshold_of(tier: Tier, bronze: u64, silver: u64, gold: u64) -> u64 {
    match tier {
        Tier::Unranked => 0,
        Tier::Bronze => bronze,
        Tier::Silver => silver,
        Tier::Gold => gold,
    }
}

/// The tier of `balance`: the highest one whose threshold the balance reaches,
/// tried in the order gold, silver, bronze.
pub open spec fn tier_of(balance: u64, bronze: u64, silver: u64, gold: u64) -> Tier {
    if balance >= gold {
        Tier::Gold
    } else if balance >= silver {
        Tier::Silver
    } else if balance >= bronze {
        Tier::Bronze
    } else {
        Tier::Unranked
    }
}

/// Classifies a balance against three thresholds. The thresholds are taken as
/// given; nothing is assumed of their order.
pub fn classify(balance: u64, bronze: u64, silver: u64, gold: u64) -> (tier: Tier)
    ensures
        tier == tier_of(balance, bronze, silver, gold),
{
    if balance >= gold {
        Tier::Gold
    } else if balance >= silver {
        Tier::Silver
    } else if balance >= bronze {
        Tier::Bronze
    } else {
        Tier::Unranked
    }
}

/// The balance meets the threshold of its tier, whatever the thresholds.
/// Where they rise from bronze to gold it meets that of no higher tier, so
/// its tier is the highest one that it reaches.
pub proof fn lemma_tier_is_highest_reached(
    balance: u64,
    bronze: u64,
    silver: u64,
    gold: u64,
    other: Tier,
)
    ensures
        balance >= threshold_of(tier_of(balance, bronze, silver, gold), bronze, silver, gold),
        bronze < silver < gold && other.rank_of() > tier_of(
            balance,
            bronze,
            silver,
            gold,
        ).rank_of() ==> balance < threshold_of(other, bronze, silver, gold),
{
}

/// Where the thresholds rise from bronze to gold, a larger balance never
/// has a lower tier.
pub proof fn lemma_tier_monotonic(smaller: u64, larger: u64, bronze: u64, silver: u64, gold: u64)
    requires
        smaller <= larger,
        bronze < silver < gold,
    ensures
        tier_of(smaller, bronze, silver, gold).rank_of() <= tier_of(
            larger,
            bronze,
            silver,
            gold,
        ).rank_of(),
{
}

} // verus!
