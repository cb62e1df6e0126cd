//! The greeting record and the bytes it is stored as.

use vstd::prelude::*;
use vstd::std_specs::cmp::PartialEqSpecImpl;
use crate::error::GreetingError;
use crate::pubkey::Pubkey;

verus! {

/// Length of the prefix that the ledger keeps in front of every record.
pub const PREFIX_LEN: usize = 4;

/// Length of a stored record: prefix, counter, user key and bump.
pub const ACCOUNT_LEN: usize = 41;

/// The record kept for one user: how often the user was greeted, who the
/// user is, and the byte that adjusted the record's address.
#[derive(Clone, Copy, Debug)]
pub struct GreetingAccount {
    pub counter: u32,
    pub user: Pubkey,
    pub bump: u8,
}

impl Default for GreetingAccount {
    /// The record that freshly allocated storage holds: every byte zero.
    fn default() -> (account: GreetingAccount)
        ensures
            account.counter == 0,
            account.user@ == Seq::new(32, |i: int| 0u8),
            account.bump == 0,
    {
        GreetingAccount { counter: 0, user: Pubkey::default(), bump: 0 }
    }
}

impl PartialEq for GreetingAccount {
    /// Two records are equal when all three fields are.
    fn eq(&self, other: &GreetingAccount) -> (same: bool) {
        self.counter == other.counter && self.user == other.user && self.bump == other.bump
    }
}

impl Eq for GreetingAccount {

}

impl PartialEqSpecImpl for GreetingAccount {
    open spec fn obeys_eq_spec() -> bool {
        true
    }

    open spec fn eq_spec(&self, other: &GreetingAccount) -> bool {
        self.counter == other.counter && self.user@ == other.user@ && self.bump == other.bump
    }
}

/// The four bytes of a counter, least significant first.
pub open spec fn counter_bytes(counter: u32) -> Seq<u8> {
    seq![
        (counter % 256) as u8,
        (counter / 256 % 256) as u8,
        (counter / 65536 % 256) as u8,
        (counter / 16777216) as u8,
    ]
}

/// The counter that four bytes stand for, least significant first.
pub open spec fn counter_of_bytes(bytes: Seq<u8>) -> int
    recommends
        bytes.len() == 4,
{
    bytes[0] + 256 * bytes[1] + 65536 * bytes[2] + 16777216 * bytes[3]
}

/// The bytes a record is stored as: the prefix, the counter in four bytes,
/// the user's key, the bump.
pub open spec fn stored_bytes(prefix: Seq<u8>, account: GreetingAccount) -> Seq<u8> {
    prefix + counter_bytes(account.counter) + account.user@ + seq![account.bump]
}

/// What reading `data` as a record under `prefix` gives: the error, or
/// nothing where the bytes hold a record.
pub open spec fn stored_fault(prefix: Seq<u8>, data: Seq<u8>) -> Option<GreetingError> {
    if data.len() < 4 {
        Some(GreetingError::AccountDiscriminatorNotFound)
    } else if data.subrange(0, 4) != prefix {
        Some(GreetingError::AccountDiscriminatorMismatch)
    } else if data.len() < 41 {
        Some(GreetingError::AccountDidNotDeserialize)
    } else {
        None
    }
}

impl GreetingAccount {
    /// The bytes this record is stored as behind the given prefix.
    pub fn serialize(&self, prefix: &[u8; 4]) -> (data: Vec<u8>)
        ensures
            data@ == stored_bytes(prefix@, *self),
            data@.len() == ACCOUNT_LEN,
    {
        let mut data: Vec<u8> = Vec::new();
        let mut i: usize = 0;
        while i < 4
            invariant
                i <= 4,
                data@ == prefix@.subrange(0, i as int),
            decreases 4 - i,
        {
            data.push(prefix[i]);
            i += 1;
            assert(data@ =~= prefix@.subrange(0, i as int));
        }
        assert(data@ =~= prefix@);
        let c: u32 = self.counter;
        data.push((c % 256) as u8);
        data.push((c / 256 % 256) as u8);
        data.push((c / 65536 % 256) as u8);
        data.push((c / 16777216) as u8);
        assert(data@ =~= prefix@ + counter_bytes(c));
        let mut j: usize = 0;
        while j < 32
            invariant
                j <= 32,
                data@ == prefix@ + counter_bytes(c) + self.user@.subrange(0, j as int),
            decreases 32 - j,
        {
            data.push(self.user.bytes[j]);
            j += 1;
            assert(data@ =~= prefix@ + counter_bytes(c) + self.user@.subrange(0, j as int));
        }
        assert(self.user@.subrange(0, 32) =~= self.user@);
        data.push(self.bump);
        data
    }

    /// Reads a record from its stored bytes. Bytes after the record are
    /// ignored.
    pub fn deserialize(data: &[u8], prefix: &[u8; 4]) -> (read: Result<GreetingAccount, GreetingError>)
        ensures
            match read {
                Ok(account) => {
                    &&& stored_fault(prefix@, data@) is None
                    &&& account.counter == counter_of_bytes(data@.subrange(4, 8))
                    &&& account.user@ == data@.subrange(8, 40)
                    &&& account.bump == data@[40]
                },
                Err(fault) => stored_fault(prefix@, data@) == Some(fault),
            },
    {
        if data.len() < PREFIX_LEN {
            return Err(GreetingError::AccountDiscriminatorNotFound);
        }
        let mut i: usize = 0;
        while i < 4
            invariant
                i <= 4,
                data@.len() >= 4,
                forall|k: int| 0 <= k < i ==> data@[k] == prefix@[k],
            decreases 4 - i,
        {
            if data[i] != prefix[i] {
                assert(data@.subrange(0, 4)[i as int] != prefix@[i as int]);
                return Err(GreetingError::AccountDiscriminatorMismatch);
            }
            i += 1;
        }
        assert(data@.subrange(0, 4) =~= prefix@);
        if data.len() < ACCOUNT_LEN {
            return Err(GreetingError::AccountDidNotDeserialize);
        }
        let b0: u32 = data[4] as u32;
        let b1: u32 = data[5] as u32;
        let b2: u32 = data[6] as u32;
        let b3: u32 = data[7] as u32;
        let counter: u32 = b0 + 256 * b1 + 65536 * b2 + 16777216 * b3;
        let mut bytes: [u8; 32] = [0u8; 32];
        let mut j: usize = 0;
        while j < 32
            invariant
                j <= 32,
                data@.len() >= 41,
                forall|k: int| 0 <= k < j ==> bytes@[k] == data@[8 + k],
            decreases 32 - j,
        {
            bytes[j] = data[8 + j];
            j += 1;
        }
        assert(bytes@ =~= data@.subrange(8, 40));
        Ok(GreetingAccount { counter, user: Pubkey { bytes }, bump: data[40] })
    }
}

/// Four bytes written for a counter are read back as that counter.
pub proof fn lemma_counter_bytes_round_trip(counter: u32)
    ensures
        counter_bytes(counter).len() == 4,
        counter_of_bytes(counter_bytes(counter)) == counter,
{
}

/// A stored record is 41 bytes long and is read back field by field as it
/// was written, whatever bytes follow it.
pub proof fn lemma_stored_bytes_round_trip(prefix: Seq<u8>, account: GreetingAccount, rest: Seq<u8>)
    requires
        prefix.len() == 4,
    ensures
        stored_bytes(prefix, account).len() == 41,
        stored_fault(prefix, stored_bytes(prefix, account) + rest) is None,
        counter_of_bytes((stored_bytes(prefix, account) + rest).subrange(4, 8)) == account.counter,
        (stored_bytes(prefix, account) + rest).subrange(8, 40) == account.user@,
        (stored_bytes(prefix, account) + rest)[40] == account.bump,
{
    let data = stored_bytes(prefix, account) + rest;
    lemma_counter_bytes_round_trip(account.counter);
    assert(data.subrange(0, 4) =~= prefix);
    assert(data.subrange(4, 8) =~= counter_bytes(account.counter));
    assert(data.subrange(8, 40) =~= account.user@);
}

} // verus!
