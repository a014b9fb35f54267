//! Identities: who owns a record, who signs, where tokens go.
//!
//! An identity is an address of the ledger this program runs on. The library
//! never looks inside one; it stores them, hands them on and compares them.

use anchor_lang::prelude::Pubkey;
use vstd::prelude::*;

verus! {

/// `anchor_lang::prelude::Pubkey`, the ledger's 32-byte address, declared as
/// an opaque type: nothing is said of what is inside one.
#[verifier::external_type_specification]
#[verifier::external_body]
pub struct ExPubkey(anchor_lang::prelude::Pubkey);

/// `<Pubkey as Clone>::clone`, which the address type derives. Trusted: the
/// copy is the address it was made of. The `Clone` impls of the records and
/// notifications go through it.
pub assume_specification[ <Pubkey as Clone>::clone ](key: &Pubkey) -> (copy: Pubkey)
    ensures
        copy == *key,
;

/// Compares two identities with `<Pubkey as PartialEq>::eq`, which the
/// address type derives over its 32 bytes. Trusted: the comparison is true
/// exactly when the two are the same address.
#[verifier::external_body]
pub(crate) fn same_identity(a: &Pubkey, b: &Pubkey) -> (same: bool)
    ensures
        same == (*a == *b),
{
    a == b
}

} // verus!
