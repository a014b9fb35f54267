use otto_referral_rewards::{classify, Tier};

#[test]
fn balance_at_the_silver_threshold_is_silver() {
    assert_eq!(classify(5_000_000, 1_000_000, 5_000_000, 10_000_000), Tier::Silver);
}

#[test]
fn balance_below_bronze_has_no_rank() {
    assert_eq!(classify(999_999, 1_000_000, 5_000_000, 10_000_000), Tier::Unranked);
    assert_eq!(classify(0, 1_000_000, 5_000_000, 10_000_000), Tier::Unranked);
}

#[test]
fn each_threshold_is_met_by_the_balance_that_equals_it() {
    assert_eq!(classify(1_000_000, 1_000_000, 5_000_000, 10_000_000), Tier::Bronze);
    assert_eq!(classify(4_999_999, 1_000_000, 5_000_000, 10_000_000), Tier::Bronze);
    assert_eq!(classify(9_999_999, 1_000_000, 5_000_000, 10_000_000), Tier::Silver);
    assert_eq!(classify(10_000_000, 1_000_000, 5_000_000, 10_000_000), Tier::Gold);
    assert_eq!(classify(u64::MAX, 1_000_000, 5_000_000, 10_000_000), Tier::Gold);
}

#[test]
fn thresholds_out_of_order_are_tried_gold_first() {
    // gold below bronze: every balance that meets gold is gold
    assert_eq!(classify(150, 200, 300, 100), Tier::Gold);
    assert_eq!(classify(50, 200, 300, 100), Tier::Unranked);
    // silver above gold can never be reached from below gold
    assert_eq!(classify(250, 200, 400, 300), Tier::Bronze);
}

#[test]
fn tiers_are_ranked_from_none_to_gold() {
    assert_eq!(Tier::Unranked.rank(), 0);
    assert_eq!(Tier::Bronze.rank(), 1);
    assert_eq!(Tier::Silver.rank(), 2);
    assert_eq!(Tier::Gold.rank(), 3);
}

#[test]
fn a_larger_balance_never_ranks_lower() {
    let balances = [0u64, 999_999, 1_000_000, 4_999_999, 5_000_000, 9_999_999, 10_000_000];
    for pair in balances.windows(2) {
        let lower = classify(pair[0], 1_000_000, 5_000_000, 10_000_000);
        let higher = classify(pair[1], 1_000_000, 5_000_000, 10_000_000);
        assert!(lower.rank() <= higher.rank());
    }
}
