use otto_referral_rewards::reward::{basis_point_share, calculate_dynamic_reward, holdings_multiplier};

#[test]
fn full_ratio_and_ten_fold_holdings_earn_one_and_a_half() {
    // base 50,000; ratio keeps it; 20,000,000 >= 10 x 1,000,000
    assert_eq!(calculate_dynamic_reward(500, 10_000, 20_000_000, 1_000_000, 1_000_000), 75_000);
}

#[test]
fn halved_ratio_at_minimum_holdings_earns_half_the_base() {
    assert_eq!(calculate_dynamic_reward(500, 5_000, 1_000_000, 1_000_000, 1_000_000), 25_000);
}

#[test]
fn five_fold_holdings_earn_a_quarter_more() {
    assert_eq!(calculate_dynamic_reward(500, 10_000, 5_000_000, 1_000_000, 1_000_000), 62_500);
}

#[test]
fn two_fold_holdings_earn_a_tenth_more() {
    assert_eq!(calculate_dynamic_reward(500, 10_000, 2_000_000, 1_000_000, 1_000_000), 55_000);
}

#[test]
fn brackets_turn_at_their_thresholds() {
    assert_eq!(holdings_multiplier(10_000_000, 1_000_000), 15_000);
    assert_eq!(holdings_multiplier(9_999_999, 1_000_000), 12_500);
    assert_eq!(holdings_multiplier(5_000_000, 1_000_000), 12_500);
    assert_eq!(holdings_multiplier(4_999_999, 1_000_000), 11_000);
    assert_eq!(holdings_multiplier(2_000_000, 1_000_000), 11_000);
    assert_eq!(holdings_multiplier(1_999_999, 1_000_000), 10_000);
    assert_eq!(holdings_multiplier(0, 1_000_000), 10_000);
}

#[test]
fn a_minimum_of_zero_puts_every_holding_in_the_top_bracket() {
    assert_eq!(holdings_multiplier(0, 0), 15_000);
    assert_eq!(holdings_multiplier(7, 0), 15_000);
}

#[test]
fn thresholds_beyond_sixty_four_bits_are_not_cut() {
    // ten times the minimum does not fit in 64 bits; no holding reaches it
    assert_eq!(holdings_multiplier(u64::MAX, u64::MAX), 10_000);
    assert_eq!(holdings_multiplier(u64::MAX, u64::MAX / 2), 11_000);
    assert_eq!(holdings_multiplier(u64::MAX, u64::MAX / 5), 12_500);
    assert_eq!(holdings_multiplier(u64::MAX, u64::MAX / 10), 15_000);
    assert_eq!(holdings_multiplier(u64::MAX, u64::MAX / 10 + 1), 12_500);
}

#[test]
fn every_step_rounds_toward_zero() {
    // 999 * 500 / 10000 = 49.95 -> 49; 49 * 3333 / 10000 = 16.33 -> 16;
    // 16 * 11000 / 10000 = 17.6 -> 17
    assert_eq!(basis_point_share(999, 500), 49);
    assert_eq!(basis_point_share(49, 3_333), 16);
    assert_eq!(basis_point_share(16, 11_000), 17);
    assert_eq!(calculate_dynamic_reward(500, 3_333, 2_000, 999, 1_000), 17);
}

#[test]
fn share_of_the_largest_amount_does_not_overflow() {
    assert_eq!(basis_point_share(u64::MAX, 1_000), 1_844_674_407_370_955_161);
    assert_eq!(basis_point_share(u64::MAX, 10_000), u64::MAX);
}

#[test]
fn a_share_beyond_sixty_four_bits_keeps_its_low_bits() {
    assert_eq!(basis_point_share(u64::MAX, 65_535), 10_210_272_844_798_236_812);
    assert_eq!(
        calculate_dynamic_reward(65_535, 65_535, 1, u64::MAX, 0),
        17_359_186_300_884_885_148
    );
}

#[test]
fn a_zero_lever_brings_the_reward_to_zero() {
    assert_eq!(calculate_dynamic_reward(0, 10_000, 20_000_000, 1_000_000, 1_000_000), 0);
    assert_eq!(calculate_dynamic_reward(500, 0, 20_000_000, 1_000_000, 1_000_000), 0);
    assert_eq!(calculate_dynamic_reward(500, 10_000, 20_000_000, 0, 1_000_000), 0);
}

#[test]
fn the_same_arguments_give_the_same_reward() {
    let first = calculate_dynamic_reward(725, 8_400, 3_141_592, 27_182_818, 1_000_000);
    let second = calculate_dynamic_reward(725, 8_400, 3_141_592, 27_182_818, 1_000_000);
    assert_eq!(first, second);
    // 27,182,818 * 725 / 10000 = 1,970,754; * 8400 / 10000 = 1,655,433; * 1.1 = 1,820,976
    assert_eq!(first, 1_820_976);
}
