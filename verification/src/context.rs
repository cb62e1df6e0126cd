//! What an entry point is handed: the program's key and the accounts of the
//! transaction.

use vstd::prelude::*;
use crate::pubkey::Pubkey;

verus! {

/// What an entry point works on: the key of the program that runs, and the
/// accounts that the transaction named, already checked.
#[derive(Debug)]
pub struct Context<T> {
    pub program_id: Pubkey,
    pub accounts: T,
}

/// A user whose signature on the transaction was verified.
#[derive(Clone, Copy, Debug)]
pub struct Signer {
    pub key: Pubkey,
}

impl Signer {
    /// The key that signed.
    pub fn key(&self) -> (key: Pubkey)
        ensures
            key == self.key,
    {
        self.key
    }
}

/// A user account as a transaction names it, before anything is checked:
/// its key, whether it signed, and the balance it can pay from.
#[derive(Clone, Copy, Debug)]
pub struct AccountInfo {
    pub key: Pubkey,
    pub is_signer: bool,
    pub lamports: u64,
}

} // verus!
