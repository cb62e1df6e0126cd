//! The ways in which an entry point can refuse a transaction.

use vstd::prelude::*;

verus! {

/// Why a transaction was refused. A refused transaction changes nothing.
#[derive(Clone, Copy, Debug, PartialEq, Eq, Structural)]
pub enum GreetingError {
    /// The user account did not sign the transaction.
    AccountNotSigner,
    /// The record address handed in is not the one derived for the user.
    ConstraintSeeds,
    /// A record already lives at the address that was to be created.
    AccountAlreadyInUse,
    /// The user cannot pay for the storage of a new record.
    InsufficientFunds,
    /// No record lives at the address that was to be greeted.
    AccountNotInitialized,
    /// The record belongs to another user than the one who signed.
    ConstraintHasOne,
    /// The counter already holds the largest value it can.
    CounterOverflow,
    /// The bytes are too short to hold the record's prefix.
    AccountDiscriminatorNotFound,
    /// The bytes start with another prefix than the record's.
    AccountDiscriminatorMismatch,
    /// The bytes after the prefix are not a whole record.
    AccountDidNotDeserialize,
}

} // verus!
