//! The greeting program: the accounts of its two entry points, the checks
//! made on them before an entry point runs, and the entry points themselves.

use vstd::prelude::*;
use crate::account::GreetingAccount;
use crate::address::found_view;
use crate::context::{AccountInfo, Context, Signer};
use crate::error::GreetingError;
use crate::pubkey::Pubkey;
use crate::text::{greeting_lines, greeting_log, lines_view};

verus! {

/// The accounts of `join_sonic_world`: the record to fill, freshly
/// allocated, and the user who signed and pays for it.
#[derive(Clone, Copy, Debug)]
pub struct Initialize {
    pub greeting_account: GreetingAccount,
    pub user: Signer,
}

/// The accounts of `send_a_message`: the user's record and the user who
/// signed.
#[derive(Clone, Copy, Debug)]
pub struct IncrementGreeting {
    pub greeting_account: GreetingAccount,
    pub user: Signer,
}

/// Why a record cannot be created, or `None` where it can. `derived` is the
/// address derived for the user, `address` the one the transaction names,
/// `occupied` whether a record lives there, `rent` the price of its storage.
/// The first rule that is broken decides. Where no address could be derived
/// for the user, no address matches.
pub open spec fn initialize_fault(
    derived: Option<(Seq<u8>, u8)>,
    address: Seq<u8>,
    occupied: bool,
    user: AccountInfo,
    rent: u64,
) -> Option<GreetingError> {
    if !user.is_signer {
        Some(GreetingError::AccountNotSigner)
    } else if derived is None || derived->Some_0.0 != address {
        Some(GreetingError::ConstraintSeeds)
    } else if occupied {
        Some(GreetingError::AccountAlreadyInUse)
    } else if user.lamports < rent {
        Some(GreetingError::InsufficientFunds)
    } else {
        None
    }
}

/// Why a record cannot be greeted, or `None` where it can. `derived` is the
/// address derived for the user, `address` the one the transaction names,
/// `stored` the record that lives there. The first rule that is broken
/// decides. Where no address could be derived for the user, no address
/// matches.
pub open spec fn increment_fault(
    derived: Option<(Seq<u8>, u8)>,
    address: Seq<u8>,
    stored: Option<GreetingAccount>,
    user: AccountInfo,
) -> Option<GreetingError> {
    if stored is None {
        Some(GreetingError::AccountNotInitialized)
    } else if !user.is_signer {
        Some(GreetingError::AccountNotSigner)
    } else if derived is None || derived->Some_0.0 != address {
        Some(GreetingError::ConstraintSeeds)
    } else if stored->Some_0.user@ != user.key@ {
        Some(GreetingError::ConstraintHasOne)
    } else {
        None
    }
}

/// Whether the derived address is the one that the transaction names.
fn seeds_match(derived: &Option<(Pubkey, u8)>, address: &Pubkey) -> (matches: bool)
    ensures
        matches == (found_view(*derived) is Some && found_view(*derived)->Some_0.0 == address@),
{
    match derived {
        Some((found, _)) => *found == *address,
        None => false,
    }
}

impl Initialize {
    /// Checks the accounts of a creation. Where every rule holds the result
    /// is the accounts to work on: the signer, and a record of zero bytes as
    /// fresh storage holds it. Else it is the first broken rule.
    pub fn try_accounts(
        derived: Option<(Pubkey, u8)>,
        address: &Pubkey,
        occupied: bool,
        user: &AccountInfo,
        rent: u64,
    ) -> (checked: Result<Initialize, GreetingError>)
        ensures
            match checked {
                Ok(accounts) => {
                    &&& initialize_fault(found_view(derived), address@, occupied, *user, rent) is None
                    &&& accounts.greeting_account.counter == 0
                    &&& accounts.greeting_account.user@ == Seq::new(32, |i: int| 0u8)
                    &&& accounts.greeting_account.bump == 0
                    &&& accounts.user.key == user.key
                },
                Err(fault) => initialize_fault(found_view(derived), address@, occupied, *user, rent)
                    == Some(fault),
            },
    {
        if !user.is_signer {
            Err(GreetingError::AccountNotSigner)
        } else if !seeds_match(&derived, address) {
            Err(GreetingError::ConstraintSeeds)
        } else if occupied {
            Err(GreetingError::AccountAlreadyInUse)
        } else if user.lamports < rent {
            Err(GreetingError::InsufficientFunds)
        } else {
            Ok(Initialize { greeting_account: GreetingAccount::default(), user: Signer { key: user.key } })
        }
    }
}

impl IncrementGreeting {
    /// Checks the accounts of a greeting. Where every rule holds the result
    /// is the accounts to work on: the stored record and the signer. Else it
    /// is the first broken rule.
    pub fn try_accounts(
        derived: Option<(Pubkey, u8)>,
        address: &Pubkey,
        stored: Option<GreetingAccount>,
        user: &AccountInfo,
    ) -> (checked: Result<IncrementGreeting, GreetingError>)
        ensures
            match checked {
                Ok(accounts) => {
                    &&& increment_fault(found_view(derived), address@, stored, *user) is None
                    &&& Some(accounts.greeting_account) == stored
                    &&& accounts.user.key == user.key
                },
                Err(fault) => increment_fault(found_view(derived), address@, stored, *user) == Some(
                    fault,
                ),
            },
    {
        match stored {
            None => Err(GreetingError::AccountNotInitialized),
            Some(greeting_account) => {
                if !user.is_signer {
                    Err(GreetingError::AccountNotSigner)
                } else if !seeds_match(&derived, address) {
                    Err(GreetingError::ConstraintSeeds)
                } else if greeting_account.user != user.key {
                    Err(GreetingError::ConstraintHasOne)
                } else {
                    Ok(IncrementGreeting { greeting_account, user: Signer { key: user.key } })
                }
            },
        }
    }
}

/// Fills a fresh record for the user who signed: the counter starts at 0
/// and the record names the user. The bump is not set to the one that was
/// derived with the address: it stays what the storage held, which is 0 in
/// fresh storage. Succeeds on every input.
pub fn join_sonic_world(ctx: &mut Context<Initialize>) -> (outcome: Result<(), GreetingError>)
    ensures
        outcome is Ok,
        final(ctx).accounts.greeting_account.counter == 0,
        final(ctx).accounts.greeting_account.user == old(ctx).accounts.user.key,
        final(ctx).accounts.greeting_account.bump == old(ctx).accounts.greeting_account.bump,
        final(ctx).accounts.user == old(ctx).accounts.user,
        final(ctx).program_id == old(ctx).program_id,
{
    let key = ctx.accounts.user.key();
    ctx.accounts.greeting_account.counter = 0;
    ctx.accounts.greeting_account.user = key;
    Ok(())
}

/// Greets the user once more: adds 1 to the counter and gives the two lines
/// for the log, the second of which reports the new count. A counter that
/// holds the largest value is left as it is, and the greeting is refused.
pub fn send_a_message(ctx: &mut Context<IncrementGreeting>) -> (outcome: Result<
    Vec<String>,
    GreetingError,
>)
    ensures
        match outcome {
            Ok(lines) => {
                &&& old(ctx).accounts.greeting_account.counter < u32::MAX
                &&& final(ctx).accounts.greeting_account.counter
                    == old(ctx).accounts.greeting_account.counter + 1
                &&& lines_view(lines) == greeting_lines(
                    final(ctx).accounts.greeting_account.counter as nat,
                )
            },
            Err(fault) => {
                &&& old(ctx).accounts.greeting_account.counter == u32::MAX
                &&& fault == GreetingError::CounterOverflow
                &&& final(ctx).accounts.greeting_account.counter
                    == old(ctx).accounts.greeting_account.counter
            },
        },
        final(ctx).accounts.greeting_account.user == old(ctx).accounts.greeting_account.user,
        final(ctx).accounts.greeting_account.bump == old(ctx).accounts.greeting_account.bump,
        final(ctx).accounts.user == old(ctx).accounts.user,
        final(ctx).program_id == old(ctx).program_id,
{
    match ctx.accounts.greeting_account.counter.checked_add(1) {
        Some(counter) => {
            ctx.accounts.greeting_account.counter = counter;
            Ok(greeting_log(counter))
        },
        None => Err(GreetingError::CounterOverflow),
    }
}

} // verus!
