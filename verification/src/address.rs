//! Record addresses: where the ledger keeps the record of a user.
//!
//! An address is derived from a fixed salt, the user's key and the key of
//! the program that owns the record. The derivation itself is the ledger's.

use vstd::prelude::*;
use crate::pubkey::Pubkey;

verus! {

/// The address and bump that the ledger derives from a list of seeds and a
/// program's key, or `None` where it finds none.
pub uninterp spec fn program_address(seeds: Seq<Seq<u8>>, program_id: Seq<u8>) -> Option<(Seq<u8>, u8)>;

/// A derived address and its bump as plain bytes.
pub open spec fn found_view(found: Option<(Pubkey, u8)>) -> Option<(Seq<u8>, u8)> {
    match found {
        Some((address, bump)) => Some((address@, bump)),
        None => None,
    }
}

/// Calls `Pubkey::try_find_program_address` of `anchor_lang::prelude` with the
/// two seeds in this order. Trusted: the function searches bumps from 255
/// downwards for a hash of the seeds, the bump and the program's key that is
/// no curve point. It reads nothing but its arguments and does not panic, so
/// its result is the named `program_address` of them.
#[verifier::external_body]
fn try_find_program_address(first: &[u8], second: &[u8], program_id: &Pubkey) -> (found: Option<(Pubkey, u8)>)
    ensures
        found_view(found) == program_address(seq![first@, second@], program_id@),
{
    let id = anchor_lang::prelude::Pubkey::new_from_array(program_id.bytes);
    match anchor_lang::prelude::Pubkey::try_find_program_address(&[first, second], &id) {
        Some((address, bump)) => Some((Pubkey { bytes: address.to_bytes() }, bump)),
        None => None,
    }
}

/// The salt of every record address: the letters of "greeting".
pub open spec fn greeting_salt() -> Seq<u8> {
    seq![103u8, 114u8, 101u8, 101u8, 116u8, 105u8, 110u8, 103u8]
}

/// The seeds of a user's record address: the salt, then the user's key.
pub open spec fn greeting_seeds(user: Seq<u8>) -> Seq<Seq<u8>> {
    seq![greeting_salt(), user]
}

/// The address of a user's record under a program, with its bump.
pub open spec fn greeting_address(program_id: Seq<u8>, user: Seq<u8>) -> Option<(Seq<u8>, u8)> {
    program_address(greeting_seeds(user), program_id)
}

/// The salt as bytes.
pub fn salt() -> (bytes: [u8; 8])
    ensures
        bytes@ == greeting_salt(),
{
    let bytes: [u8; 8] = [103u8, 114u8, 101u8, 101u8, 116u8, 105u8, 110u8, 103u8];
    assert(bytes@ =~= greeting_salt());
    bytes
}

/// Derives the address of a user's record under a program.
pub fn find_greeting_address(program_id: &Pubkey, user: &Pubkey) -> (found: Option<(Pubkey, u8)>)
    ensures
        found_view(found) == greeting_address(program_id@, user@),
{
    let first = salt();
    try_find_program_address(first.as_slice(), user.bytes.as_slice(), program_id)
}

/// Deriving twice for the same program and user gives the same address and
/// bump.
pub proof fn lemma_greeting_address_stable(program_id: Pubkey, user: Pubkey, again: Pubkey)
    requires
        user@ == again@,
    ensures
        greeting_address(program_id@, user@) == greeting_address(program_id@, again@),
{
}

/// Two users with different keys have different seeds.
pub proof fn lemma_greeting_seeds_differ(user: Pubkey, other: Pubkey)
    requires
        user@ != other@,
    ensures
        greeting_seeds(user@) != greeting_seeds(other@),
{
    assert(greeting_seeds(user@)[1] == user@);
    assert(greeting_seeds(other@)[1] == other@);
}

} // verus!
