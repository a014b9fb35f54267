use anchor_lang::prelude::Pubkey;
use otto_referral_rewards::gateway::{authorize_payout, signer_seeds};
use otto_referral_rewards::{initialize, TransferOrder};

fn key(n: u8) -> Pubkey {
    Pubkey::new_from_array([n; 32])
}

#[test]
fn the_signing_material_is_the_label_and_the_nonce() {
    let seeds = signer_seeds(254);
    assert_eq!(seeds, vec![b"program_state".to_vec(), vec![254u8]]);
    let seeds = signer_seeds(0);
    assert_eq!(seeds.len(), 2);
    assert_eq!(seeds[0].len(), 13);
    assert_eq!(seeds[1], vec![0u8]);
}

#[test]
fn an_order_draws_on_the_vault_and_carries_the_nonce() {
    let state = initialize(key(1), key(2), key(3), 200, 1_000, 1_000_000, 500, 251).0;
    let order = authorize_payout(&state, Some(key(9)), 75_000);
    assert_eq!(
        order,
        Some(TransferOrder { from: key(3), to: key(9), amount: 75_000, authority_bump: 251 })
    );
    assert_eq!(order.unwrap().signer_seeds(), signer_seeds(251));
}

#[test]
fn nothing_moves_for_an_amount_of_zero_or_without_a_destination() {
    let state = initialize(key(1), key(2), key(3), 200, 1_000, 1_000_000, 500, 251).0;
    assert_eq!(authorize_payout(&state, Some(key(9)), 0), None);
    assert_eq!(authorize_payout(&state, None, 75_000), None);
    assert_eq!(authorize_payout(&state, None, 0), None);
}

#[test]
fn a_copy_of_an_order_is_the_same_order() {
    let order = TransferOrder { from: key(3), to: key(9), amount: 1, authority_bump: 7 };
    let copy = order.clone();
    assert_eq!(copy, order);
    assert_ne!(copy.from, copy.to);
}
