use hello_sonic_world::account::GreetingAccount;
use hello_sonic_world::address::find_greeting_address;
use hello_sonic_world::context::{AccountInfo, Context, Signer};
use hello_sonic_world::error::GreetingError;
use hello_sonic_world::hsw::{join_sonic_world, send_a_message, IncrementGreeting, Initialize};
use hello_sonic_world::ledger::Ledger;
use hello_sonic_world::pubkey::Pubkey;

fn program() -> Pubkey {
    Pubkey::new_from_array([9u8; 32])
}

fn key(byte: u8) -> Pubkey {
    Pubkey::new_from_array([byte; 32])
}

#[test]
fn create_without_signature_is_refused() {
    let mut ledger = Ledger::new(program(), 10);
    let mut user = AccountInfo { key: key(1), is_signer: false, lamports: 100 };
    let address = find_greeting_address(&program(), &user.key).unwrap().0;
    assert_eq!(ledger.create(&address, &mut user), Err(GreetingError::AccountNotSigner));
    assert_eq!(user.lamports, 100);
    assert_eq!(ledger.get(&address), None);
}

#[test]
fn create_at_another_address_is_refused() {
    let mut ledger = Ledger::new(program(), 10);
    let mut user = AccountInfo { key: key(1), is_signer: true, lamports: 100 };
    let elsewhere = find_greeting_address(&program(), &key(2)).unwrap().0;
    assert_eq!(ledger.create(&elsewhere, &mut user), Err(GreetingError::ConstraintSeeds));
    assert_eq!(ledger.create(&key(1), &mut user), Err(GreetingError::ConstraintSeeds));
    assert_eq!(user.lamports, 100);
    assert_eq!(ledger.get(&elsewhere), None);
}

#[test]
fn create_without_derived_address_is_refused() {
    let mut ledger = Ledger::new(program(), 10);
    let mut user = AccountInfo { key: key(1), is_signer: true, lamports: 100 };
    assert_eq!(ledger.create_at(None, &key(3), &mut user), Err(GreetingError::ConstraintSeeds));
    assert_eq!(ledger.get(&key(3)), None);
}

#[test]
fn create_without_funds_is_refused() {
    let mut ledger = Ledger::new(program(), 10);
    let mut user = AccountInfo { key: key(1), is_signer: true, lamports: 9 };
    let address = find_greeting_address(&program(), &user.key).unwrap().0;
    assert_eq!(ledger.create(&address, &mut user), Err(GreetingError::InsufficientFunds));
    assert_eq!(user.lamports, 9);
    assert_eq!(ledger.get(&address), None);
    user.lamports = 10;
    assert_eq!(ledger.create(&address, &mut user), Ok(()));
    assert_eq!(user.lamports, 0);
}

#[test]
fn create_checks_the_signature_before_the_address() {
    let mut ledger = Ledger::new(program(), 10);
    let mut user = AccountInfo { key: key(1), is_signer: false, lamports: 0 };
    assert_eq!(ledger.create(&key(5), &mut user), Err(GreetingError::AccountNotSigner));
}

#[test]
fn create_checks_the_address_before_the_funds() {
    let result = Initialize::try_accounts(
        Some((key(4), 255)),
        &key(5),
        true,
        &AccountInfo { key: key(1), is_signer: true, lamports: 0 },
        10,
    );
    assert_eq!(result.err(), Some(GreetingError::ConstraintSeeds));
    let result = Initialize::try_accounts(
        Some((key(5), 255)),
        &key(5),
        true,
        &AccountInfo { key: key(1), is_signer: true, lamports: 0 },
        10,
    );
    assert_eq!(result.err(), Some(GreetingError::AccountAlreadyInUse));
}

#[test]
fn checked_creation_hands_out_zeroed_storage() {
    let accounts = Initialize::try_accounts(
        Some((key(5), 254)),
        &key(5),
        false,
        &AccountInfo { key: key(1), is_signer: true, lamports: 10 },
        10,
    )
    .unwrap();
    assert_eq!(accounts.greeting_account, GreetingAccount { counter: 0, user: key(0), bump: 0 });
    assert_eq!(accounts.user.key(), key(1));
}

#[test]
fn greeting_without_signature_is_refused() {
    let mut ledger = Ledger::new(program(), 0);
    let mut user = AccountInfo { key: key(1), is_signer: true, lamports: 0 };
    let address = find_greeting_address(&program(), &user.key).unwrap().0;
    assert_eq!(ledger.create(&address, &mut user), Ok(()));
    user.is_signer = false;
    assert_eq!(ledger.increment(&address, &user), Err(GreetingError::AccountNotSigner));
    assert_eq!(ledger.get(&address).unwrap().counter, 0);
}

#[test]
fn greeting_checks_run_in_order() {
    let stored = GreetingAccount { counter: 3, user: key(1), bump: 0 };
    let signer = AccountInfo { key: key(2), is_signer: true, lamports: 0 };
    let unsigned = AccountInfo { key: key(2), is_signer: false, lamports: 0 };
    let at = |derived, stored, user| {
        IncrementGreeting::try_accounts(derived, &key(5), stored, user).err()
    };
    assert_eq!(at(None, None, &unsigned), Some(GreetingError::AccountNotInitialized));
    assert_eq!(at(None, Some(stored), &unsigned), Some(GreetingError::AccountNotSigner));
    assert_eq!(at(None, Some(stored), &signer), Some(GreetingError::ConstraintSeeds));
    assert_eq!(at(Some((key(6), 255)), Some(stored), &signer), Some(GreetingError::ConstraintSeeds));
    assert_eq!(at(Some((key(5), 255)), Some(stored), &signer), Some(GreetingError::ConstraintHasOne));
}

#[test]
fn checked_greeting_hands_out_the_stored_record() {
    let stored = GreetingAccount { counter: 3, user: key(1), bump: 4 };
    let owner = AccountInfo { key: key(1), is_signer: true, lamports: 0 };
    let accounts =
        IncrementGreeting::try_accounts(Some((key(5), 255)), &key(5), Some(stored), &owner).unwrap();
    assert_eq!(accounts.greeting_account, stored);
    assert_eq!(accounts.user.key(), key(1));
}

#[test]
fn join_sets_counter_and_user_and_keeps_the_bump() {
    let mut ctx = Context {
        program_id: program(),
        accounts: Initialize {
            greeting_account: GreetingAccount { counter: 77, user: key(0), bump: 200 },
            user: Signer { key: key(1) },
        },
    };
    assert_eq!(join_sonic_world(&mut ctx), Ok(()));
    assert_eq!(ctx.accounts.greeting_account, GreetingAccount { counter: 0, user: key(1), bump: 200 });
    assert_eq!(ctx.accounts.user.key(), key(1));
    assert_eq!(ctx.program_id, program());
}

#[test]
fn message_adds_one_and_reports_the_count() {
    let mut ctx = Context {
        program_id: program(),
        accounts: IncrementGreeting {
            greeting_account: GreetingAccount { counter: 41, user: key(1), bump: 3 },
            user: Signer { key: key(1) },
        },
    };
    let lines = send_a_message(&mut ctx).unwrap();
    assert_eq!(lines, vec!["Hello, Sonic World!".to_string(), "Greeted 42 time(s)!".to_string()]);
    assert_eq!(ctx.accounts.greeting_account, GreetingAccount { counter: 42, user: key(1), bump: 3 });
}

#[test]
fn message_at_the_largest_counter_is_refused() {
    let full = GreetingAccount { counter: u32::MAX, user: key(1), bump: 3 };
    let mut ctx = Context {
        program_id: program(),
        accounts: IncrementGreeting { greeting_account: full, user: Signer { key: key(1) } },
    };
    assert_eq!(send_a_message(&mut ctx), Err(GreetingError::CounterOverflow));
    assert_eq!(ctx.accounts.greeting_account, full);
}

#[test]
fn message_reaches_the_largest_counter() {
    let mut ctx = Context {
        program_id: program(),
        accounts: IncrementGreeting {
            greeting_account: GreetingAccount { counter: u32::MAX - 1, user: key(1), bump: 0 },
            user: Signer { key: key(1) },
        },
    };
    let lines = send_a_message(&mut ctx).unwrap();
    assert_eq!(lines[1], "Greeted 4294967295 time(s)!");
    assert_eq!(ctx.accounts.greeting_account.counter, u32::MAX);
}
