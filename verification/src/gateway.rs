//! The gateway to the token service.
//!
//! The vault has no key of its own. Its authority is an address derived from
//! a fixed label and a nonce, and only this program can sign for it: by
//! presenting the label and the nonce along with the transfer. The gateway
//! decides whether tokens move and writes the order; the caller carries the
//! order to the token service inside the same atomic operation, and fails
//! the whole operation if the service refuses.

use anchor_lang::prelude::Pubkey;
use vstd::prelude::*;
use vstd::utf8::encode_utf8;
use crate::state::ProgramState;

verus! {

/// An order to move `amount` out of the vault `from` into `to`, signed for
/// the vault's authority with the nonce `authority_bump`.
#[derive(Clone, Debug, PartialEq, Eq)]
pub struct TransferOrder {
    pub from: Pubkey,
    pub to: Pubkey,
    pub amount: u64,
    pub authority_bump: u8,
}

/// The fixed label of the vault's authority, as bytes.
pub open spec fn authority_label() -> Seq<u8> {
    encode_utf8("program_state"@)
}

/// The signing material for the nonce `bump`: the label, then the nonce.
pub open spec fn seeds_of(bump: u8) -> Seq<Seq<u8>> {
    seq![authority_label(), seq![bump]]
}

/// The order that pays `amount` to `destination`, if any: tokens move only
/// where the amount is not zero and there is somewhere to send them.
pub open spec fn payout_order(
    program_state: ProgramState,
    destination: Option<Pubkey>,
    amount: u64,
) -> Option<TransferOrder> {
    match destination {
        Some(to) if amount > 0 => Some(
            TransferOrder {
                from: program_state.rewards_pool,
                to,
                amount,
                authority_bump: program_state.bump,
            },
        ),
        _ => None,
    }
}

/// What an order, or the lack of one, takes out of the vault.
pub open spec fn drawn_from_vault(order: Option<TransferOrder>) -> nat {
    match order {
        Some(o) => o.amount as nat,
        None => 0,
    }
}

/// Builds the signing material for the nonce `bump`.
pub fn signer_seeds(bump: u8) -> (seeds: Vec<Vec<u8>>)
    ensures
        seeds.deep_view() == seeds_of(bump),
{
    let mut label: Vec<u8> = Vec::new();
    label.extend_from_slice("program_state".as_bytes());
    let mut nonce: Vec<u8> = Vec::new();
    nonce.push(bump);
    let mut seeds: Vec<Vec<u8>> = Vec::new();
    seeds.push(label);
    seeds.push(nonce);
    assert(seeds.deep_view() =~~= seeds_of(bump));
    seeds
}

/// Writes the order that pays `amount` out of the program's vault to
/// `destination`, or none where nothing is to move.
pub fn authorize_payout(
    program_state: &ProgramState,
    destination: Option<Pubkey>,
    amount: u64,
) -> (order: Option<TransferOrder>)
    ensures
        order == payout_order(*program_state, destination, amount),
        drawn_from_vault(order) <= amount,
{
    match destination {
        Some(to) => {
            if amount > 0 {
                Some(
                    TransferOrder {
                        from: program_state.rewards_pool,
                        to,
                        amount,
                        authority_bump: program_state.bump,
                    },
                )
            } else {
                None
            }
        },
        None => None,
    }
}

impl TransferOrder {
    /// The signing material that goes with this order.
    pub fn signer_seeds(&self) -> (seeds: Vec<Vec<u8>>)
        ensures
            seeds.deep_view() == seeds_of(self.authority_bump),
    {
        signer_seeds(self.authority_bump)
    }
}

} // verus!
