//! A ledger of greeting records: the records of one program by address, and
//! the two entry points as whole transactions, from the accounts that a
//! transaction names to the records it leaves behind.

use vstd::prelude::*;
use crate::account::GreetingAccount;
use crate::address::{find_greeting_address, found_view, greeting_address};
use crate::context::{AccountInfo, Context};
use crate::error::GreetingError;
use crate::hsw::{
    increment_fault, initialize_fault, join_sonic_world, send_a_message, IncrementGreeting,
    Initialize,
};
use crate::pubkey::Pubkey;
use crate::text::{greeting_lines, lines_view};

verus! {

/// One record and the address it lives at.
#[derive(Clone, Copy, Debug)]
struct Entry {
    address: Pubkey,
    account: GreetingAccount,
}

/// The records of one program. No two records live at the same address.
#[derive(Debug)]
pub struct Ledger {
    program_id: Pubkey,
    rent: u64,
    entries: Vec<Entry>,
}

/// The records in a list of entries, by address: a later entry replaces an
/// earlier one at the same address.
spec fn entries_map(entries: Seq<Entry>) -> Map<Seq<u8>, GreetingAccount>
    decreases entries.len(),
{
    if entries.len() == 0 {
        Map::empty()
    } else {
        entries_map(entries.drop_last()).insert(entries.last().address@, entries.last().account)
    }
}

/// No two entries share an address.
spec fn distinct(entries: Seq<Entry>) -> bool {
    forall|i: int, j: int|
        0 <= i < j < entries.len() ==> #[trigger] entries[i].address@ != #[trigger] entries[j].address@
}

/// An address has a record exactly where some entry holds it.
proof fn lemma_entries_map_domain(entries: Seq<Entry>, address: Seq<u8>)
    ensures
        entries_map(entries).contains_key(address) <==> exists|i: int|
            0 <= i < entries.len() && #[trigger] entries[i].address@ == address,
    decreases entries.len(),
{
    if entries.len() > 0 {
        let front = entries.drop_last();
        lemma_entries_map_domain(front, address);
        if entries_map(entries).contains_key(address) {
            if entries.last().address@ == address {
                assert(entries[entries.len() - 1].address@ == address);
            } else {
                let i = choose|i: int| 0 <= i < front.len() && #[trigger] front[i].address@ == address;
                assert(entries[i].address@ == address);
            }
        }
        if exists|i: int| 0 <= i < entries.len() && #[trigger] entries[i].address@ == address {
            let i = choose|i: int| 0 <= i < entries.len() && #[trigger] entries[i].address@ == address;
            if i < entries.len() - 1 {
                assert(front[i].address@ == address);
            }
        }
    }
}

/// Where no two entries share an address, the record at an entry's address
/// is that entry's.
proof fn lemma_entries_map_value(entries: Seq<Entry>, i: int)
    requires
        distinct(entries),
        0 <= i < entries.len(),
    ensures
        entries_map(entries).contains_key(entries[i].address@),
        entries_map(entries)[entries[i].address@] == entries[i].account,
    decreases entries.len(),
{
    let front = entries.drop_last();
    if i < entries.len() - 1 {
        assert(distinct(front)) by {
            assert forall|a: int, b: int| 0 <= a < b < front.len() implies #[trigger] front[a].address@
                != #[trigger] front[b].address@ by {
                assert(entries[a].address@ != entries[b].address@);
            }
        }
        lemma_entries_map_value(front, i);
        assert(entries[i].address@ != entries[entries.len() - 1].address@);
    }
}

/// Replacing the record of one entry replaces the record at its address.
proof fn lemma_entries_map_update(entries: Seq<Entry>, i: int, entry: Entry)
    requires
        distinct(entries),
        0 <= i < entries.len(),
        entry.address@ == entries[i].address@,
    ensures
        distinct(entries.update(i, entry)),
        entries_map(entries.update(i, entry)) == entries_map(entries).insert(
            entry.address@,
            entry.account,
        ),
    decreases entries.len(),
{
    let changed = entries.update(i, entry);
    assert(distinct(changed)) by {
        assert forall|a: int, b: int| 0 <= a < b < changed.len() implies #[trigger] changed[a].address@
            != #[trigger] changed[b].address@ by {
            assert(entries[a].address@ != entries[b].address@);
        }
    }
    let front = entries.drop_last();
    if i == entries.len() - 1 {
        assert(changed.drop_last() =~= front);
        assert(entries_map(changed) =~= entries_map(entries).insert(entry.address@, entry.account));
    } else {
        assert(distinct(front)) by {
            assert forall|a: int, b: int| 0 <= a < b < front.len() implies #[trigger] front[a].address@
                != #[trigger] front[b].address@ by {
                assert(entries[a].address@ != entries[b].address@);
            }
        }
        lemma_entries_map_update(front, i, entry);
        assert(changed.drop_last() =~= front.update(i, entry));
        assert(changed.last() == entries.last());
        assert(entries[i].address@ != entries[entries.len() - 1].address@);
        assert(entries_map(changed) =~= entries_map(entries).insert(entry.address@, entry.account));
    }
}

/// Adding an entry at a new address adds its record.
proof fn lemma_entries_map_push(entries: Seq<Entry>, entry: Entry)
    requires
        distinct(entries),
        !entries_map(entries).contains_key(entry.address@),
    ensures
        distinct(entries.push(entry)),
        entries_map(entries.push(entry)) == entries_map(entries).insert(
            entry.address@,
            entry.account,
        ),
{
    let longer = entries.push(entry);
    assert(longer.drop_last() =~= entries);
    assert forall|a: int, b: int| 0 <= a < b < longer.len() implies #[trigger] longer[a].address@
        != #[trigger] longer[b].address@ by {
        if b == entries.len() {
            lemma_entries_map_domain(entries, entry.address@);
            assert(entries[a].address@ != entry.address@);
        } else {
            assert(entries[a].address@ != entries[b].address@);
        }
    }
}

/// The record at an address, if one lives there.
pub open spec fn lookup(records: Map<Seq<u8>, GreetingAccount>, address: Seq<u8>) -> Option<
    GreetingAccount,
> {
    if records.contains_key(address) {
        Some(records[address])
    } else {
        None
    }
}

/// Why a creation is refused, or `None` where it goes through.
pub open spec fn create_fault(
    records: Map<Seq<u8>, GreetingAccount>,
    derived: Option<(Seq<u8>, u8)>,
    address: Seq<u8>,
    user: AccountInfo,
    rent: u64,
) -> Option<GreetingError> {
    initialize_fault(derived, address, records.contains_key(address), user, rent)
}

/// The records after a creation for `user` at `address`: the new record
/// has counter 0, names the user and has bump 0.
pub open spec fn created(records: Map<Seq<u8>, GreetingAccount>, address: Seq<u8>, user: Pubkey) -> Map<
    Seq<u8>,
    GreetingAccount,
> {
    records.insert(address, GreetingAccount { counter: 0, user, bump: 0 })
}

/// Why a greeting is refused, or `None` where it goes through.
pub open spec fn greet_fault(
    records: Map<Seq<u8>, GreetingAccount>,
    derived: Option<(Seq<u8>, u8)>,
    address: Seq<u8>,
    user: AccountInfo,
) -> Option<GreetingError> {
    match increment_fault(derived, address, lookup(records, address), user) {
        Some(fault) => Some(fault),
        None => if records[address].counter == u32::MAX {
            Some(GreetingError::CounterOverflow)
        } else {
            None
        },
    }
}

/// The records after a greeting at `address`: the counter there is one
/// more, all else is as before.
pub open spec fn greeted(records: Map<Seq<u8>, GreetingAccount>, address: Seq<u8>) -> Map<
    Seq<u8>,
    GreetingAccount,
> {
    records.insert(
        address,
        GreetingAccount {
            counter: (records[address].counter + 1) as u32,
            user: records[address].user,
            bump: records[address].bump,
        },
    )
}

/// Every record lives at the address derived for its user under the
/// program.
pub open spec fn anchored(records: Map<Seq<u8>, GreetingAccount>, program_id: Seq<u8>) -> bool {
    forall|address: Seq<u8>| #[trigger]
        records.contains_key(address) ==> {
            &&& greeting_address(program_id, records[address].user@) is Some
            &&& greeting_address(program_id, records[address].user@)->Some_0.0 == address
        }
}

/// The records after `times` greetings at `address`, one after the other.
pub open spec fn greeted_times(
    records: Map<Seq<u8>, GreetingAccount>,
    address: Seq<u8>,
    times: nat,
) -> Map<Seq<u8>, GreetingAccount>
    decreases times,
{
    if times == 0 {
        records
    } else {
        greeted(greeted_times(records, address, (times - 1) as nat), address)
    }
}

/// A user who signed and can pay, and who names the vacant address derived
/// for its key, is not refused; the record created has counter 0 and names
/// the user.
pub proof fn lemma_create_succeeds(
    records: Map<Seq<u8>, GreetingAccount>,
    derived: Option<(Seq<u8>, u8)>,
    address: Seq<u8>,
    user: AccountInfo,
    rent: u64,
)
    requires
        user.is_signer,
        derived is Some,
        derived->Some_0.0 == address,
        !records.contains_key(address),
        user.lamports >= rent,
    ensures
        create_fault(records, derived, address, user, rent) is None,
        lookup(created(records, address, user.key), address) == Some(
            GreetingAccount { counter: 0, user: user.key, bump: 0 },
        ),
{
}

/// Once a record has been created at an address, every further creation
/// there is refused, whoever asks; the user of the first record is told
/// that the address is in use.
pub proof fn lemma_create_again_refused(
    records: Map<Seq<u8>, GreetingAccount>,
    derived: Option<(Seq<u8>, u8)>,
    address: Seq<u8>,
    first: AccountInfo,
    again: AccountInfo,
    derived_again: Option<(Seq<u8>, u8)>,
    rent: u64,
)
    requires
        create_fault(records, derived, address, first, rent) is None,
    ensures
        create_fault(created(records, address, first.key), derived_again, address, again, rent)
            is Some,
        create_fault(created(records, address, first.key), derived, address, first, rent) == Some(
            GreetingError::AccountAlreadyInUse,
        ),
{
}

/// Greetings by the record's own user are not refused as long as the
/// counter can grow, and after `times` of them the counter is `times`
/// more than before, with user and bump as they were.
pub proof fn lemma_greetings_count(
    records: Map<Seq<u8>, GreetingAccount>,
    derived: Option<(Seq<u8>, u8)>,
    address: Seq<u8>,
    user: AccountInfo,
    times: nat,
)
    requires
        user.is_signer,
        derived is Some,
        derived->Some_0.0 == address,
        records.contains_key(address),
        records[address].user@ == user.key@,
        records[address].counter + times <= u32::MAX,
    ensures
        forall|done: nat|
            done < times ==> greet_fault(
                #[trigger] greeted_times(records, address, done),
                derived,
                address,
                user,
            ) is None,
        greeted_times(records, address, times).contains_key(address),
        greeted_times(records, address, times)[address].counter == records[address].counter + times,
        greeted_times(records, address, times)[address].user == records[address].user,
        greeted_times(records, address, times)[address].bump == records[address].bump,
        forall|other: Seq<u8>|
            other != address ==> lookup(greeted_times(records, address, times), other) == lookup(
                records,
                other,
            ),
    decreases times,
{
    if times > 0 {
        lemma_greetings_count(records, derived, address, user, (times - 1) as nat);
        assert forall|done: nat| done < times implies greet_fault(
            #[trigger] greeted_times(records, address, done),
            derived,
            address,
            user,
        ) is None by {
            if done == times - 1 {
                assert(greeted_times(records, address, done)[address].counter < u32::MAX);
            }
        }
    }
}

/// After a creation, `times` greetings by the user bring the counter to
/// `times`.
pub proof fn lemma_create_then_greet(
    records: Map<Seq<u8>, GreetingAccount>,
    derived: Option<(Seq<u8>, u8)>,
    address: Seq<u8>,
    user: AccountInfo,
    rent: u64,
    times: nat,
)
    requires
        create_fault(records, derived, address, user, rent) is None,
        1 <= times <= u32::MAX,
    ensures
        forall|done: nat|
            done < times ==> greet_fault(
                #[trigger] greeted_times(created(records, address, user.key), address, done),
                derived,
                address,
                user,
            ) is None,
        greeted_times(created(records, address, user.key), address, times)[address].counter
            == times,
        greeted_times(created(records, address, user.key), address, times)[address].user
            == user.key,
{
    lemma_greetings_count(created(records, address, user.key), derived, address, user, times);
}

/// A greeting signed by another user than the record's is refused,
/// whatever address is derived for the signer. Where the signer signed and
/// names its own derived address, the refusal says that the record is
/// another user's.
pub proof fn lemma_other_signer_refused(
    records: Map<Seq<u8>, GreetingAccount>,
    derived: Option<(Seq<u8>, u8)>,
    address: Seq<u8>,
    signer: AccountInfo,
)
    requires
        records.contains_key(address),
        records[address].user@ != signer.key@,
    ensures
        greet_fault(records, derived, address, signer) is Some,
        signer.is_signer && derived is Some && derived->Some_0.0 == address ==> greet_fault(
            records,
            derived,
            address,
            signer,
        ) == Some(GreetingError::ConstraintHasOne),
{
}

/// A greeting at an address without a record is refused: no record lives
/// there.
pub proof fn lemma_greet_without_record_refused(
    records: Map<Seq<u8>, GreetingAccount>,
    derived: Option<(Seq<u8>, u8)>,
    address: Seq<u8>,
    user: AccountInfo,
)
    requires
        !records.contains_key(address),
    ensures
        greet_fault(records, derived, address, user) == Some(GreetingError::AccountNotInitialized),
{
}

/// Where every record lives at the address derived for its user, no user
/// has two records.
pub proof fn lemma_one_record_per_user(
    records: Map<Seq<u8>, GreetingAccount>,
    program_id: Seq<u8>,
    first: Seq<u8>,
    second: Seq<u8>,
)
    requires
        anchored(records, program_id),
        records.contains_key(first),
        records.contains_key(second),
        records[first].user@ == records[second].user@,
    ensures
        first == second,
{
}

impl View for Ledger {
    type V = Map<Seq<u8>, GreetingAccount>;

    /// The records by address.
    closed spec fn view(&self) -> Map<Seq<u8>, GreetingAccount> {
        entries_map(self.entries@)
    }
}

impl Ledger {
    /// The ledger is in order: no two records live at the same address.
    pub closed spec fn wf(&self) -> bool {
        distinct(self.entries@)
    }

    /// The key of the program that owns the records.
    pub closed spec fn program(&self) -> Pubkey {
        self.program_id
    }

    /// The price of the storage of one record.
    pub closed spec fn price(&self) -> u64 {
        self.rent
    }

    /// A ledger without records for the given program, in which the storage
    /// of a record costs `rent`.
    pub fn new(program_id: Pubkey, rent: u64) -> (ledger: Ledger)
        ensures
            ledger.wf(),
            ledger@ == Map::<Seq<u8>, GreetingAccount>::empty(),
            ledger.program() == program_id,
            ledger.price() == rent,
            anchored(ledger@, program_id@),
    {
        Ledger { program_id, rent, entries: Vec::new() }
    }

    /// The key of the program that owns the records.
    pub fn program_id(&self) -> (program_id: Pubkey)
        ensures
            program_id == self.program(),
    {
        self.program_id
    }

    /// The price of the storage of one record.
    pub fn rent(&self) -> (rent: u64)
        ensures
            rent == self.price(),
    {
        self.rent
    }

    /// Where in the list the record of an address stands.
    fn position(&self, address: &Pubkey) -> (found: Option<usize>)
        requires
            self.wf(),
        ensures
            match found {
                Some(i) => {
                    &&& i < self.entries@.len()
                    &&& self.entries@[i as int].address@ == address@
                    &&& self@.contains_key(address@)
                    &&& self@[address@] == self.entries@[i as int].account
                },
                None => !self@.contains_key(address@),
            },
    {
        let mut i: usize = 0;
        while i < self.entries.len()
            invariant
                i <= self.entries@.len(),
                self.wf(),
                forall|k: int| 0 <= k < i ==> (#[trigger] self.entries@[k]).address@ != address@,
            decreases self.entries@.len() - i,
        {
            if self.entries[i].address == *address {
                proof {
                    lemma_entries_map_value(self.entries@, i as int);
                }
                return Some(i);
            }
            i += 1;
        }
        proof {
            lemma_entries_map_domain(self.entries@, address@);
        }
        None
    }

    /// Loads the record at an address, if one lives there.
    pub fn get(&self, address: &Pubkey) -> (loaded: Option<GreetingAccount>)
        requires
            self.wf(),
        ensures
            loaded == lookup(self@, address@),
    {
        match self.position(address) {
            Some(i) => Some(self.entries[i].account),
            None => None,
        }
    }
    /// Creates the record of `user` at `address`, given the address that
    /// was derived for the user. Where no rule is broken the record is there
    /// afterwards and the user has paid its storage. A refused creation
    /// changes neither the records nor the user.
    pub fn create_at(
        &mut self,
        derived: Option<(Pubkey, u8)>,
        address: &Pubkey,
        user: &mut AccountInfo,
    ) -> (outcome: Result<(), GreetingError>)
        requires
            old(self).wf(),
        ensures
            final(self).wf(),
            final(self).program() == old(self).program(),
            final(self).price() == old(self).price(),
            final(user).key == old(user).key,
            final(user).is_signer == old(user).is_signer,
            match outcome {
                Ok(()) => {
                    &&& create_fault(
                        old(self)@,
                        found_view(derived),
                        address@,
                        *old(user),
                        old(self).price(),
                    ) is None
                    &&& final(self)@ == created(old(self)@, address@, old(user).key)
                    &&& final(user).lamports == old(user).lamports - old(self).price()
                },
                Err(fault) => {
                    &&& create_fault(
                        old(self)@,
                        found_view(derived),
                        address@,
                        *old(user),
                        old(self).price(),
                    ) == Some(fault)
                    &&& final(self)@ == old(self)@
                    &&& final(user).lamports == old(user).lamports
                },
            },
    {
        let occupied = self.position(address).is_some();
        match Initialize::try_accounts(derived, address, occupied, user, self.rent) {
            Err(fault) => Err(fault),
            Ok(accounts) => {
                let mut ctx = Context { program_id: self.program_id, accounts };
                match join_sonic_world(&mut ctx) {
                    Err(fault) => Err(fault),
                    Ok(()) => {
                        let entry = Entry { address: *address, account: ctx.accounts.greeting_account };
                        proof {
                            lemma_entries_map_push(self.entries@, entry);
                        }
                        user.lamports = user.lamports - self.rent;
                        self.entries.push(entry);
                        Ok(())
                    },
                }
            },
        }
    }

    /// Creates the record of `user` at `address`: derives the user's address
    /// under the program and goes on as `create_at` does.
    pub fn create(&mut self, address: &Pubkey, user: &mut AccountInfo) -> (outcome: Result<
        (),
        GreetingError,
    >)
        requires
            old(self).wf(),
        ensures
            final(self).wf(),
            final(self).program() == old(self).program(),
            final(self).price() == old(self).price(),
            final(user).key == old(user).key,
            final(user).is_signer == old(user).is_signer,
            anchored(old(self)@, old(self).program()@) ==> anchored(
                final(self)@,
                final(self).program()@,
            ),
            match outcome {
                Ok(()) => {
                    &&& create_fault(
                        old(self)@,
                        greeting_address(old(self).program()@, old(user).key@),
                        address@,
                        *old(user),
                        old(self).price(),
                    ) is None
                    &&& final(self)@ == created(old(self)@, address@, old(user).key)
                    &&& final(user).lamports == old(user).lamports - old(self).price()
                },
                Err(fault) => {
                    &&& create_fault(
                        old(self)@,
                        greeting_address(old(self).program()@, old(user).key@),
                        address@,
                        *old(user),
                        old(self).price(),
                    ) == Some(fault)
                    &&& final(self)@ == old(self)@
                    &&& final(user).lamports == old(user).lamports
                },
            },
    {
        let derived = find_greeting_address(&self.program_id, &user.key);
        self.create_at(derived, address, user)
    }

    /// Greets the user whose record lives at `address`, given the address
    /// that was derived for the user. Where no rule is broken the counter
    /// there is one more afterwards and the result is the two lines for the
    /// log. A refused greeting changes nothing.
    pub fn increment_at(
        &mut self,
        derived: Option<(Pubkey, u8)>,
        address: &Pubkey,
        user: &AccountInfo,
    ) -> (outcome: Result<Vec<String>, GreetingError>)
        requires
            old(self).wf(),
        ensures
            final(self).wf(),
            final(self).program() == old(self).program(),
            final(self).price() == old(self).price(),
            anchored(old(self)@, old(self).program()@) ==> anchored(
                final(self)@,
                final(self).program()@,
            ),
            match outcome {
                Ok(lines) => {
                    &&& greet_fault(old(self)@, found_view(derived), address@, *user) is None
                    &&& final(self)@ == greeted(old(self)@, address@)
                    &&& lines_view(lines) == greeting_lines(final(self)@[address@].counter as nat)
                },
                Err(fault) => {
                    &&& greet_fault(old(self)@, found_view(derived), address@, *user) == Some(fault)
                    &&& final(self)@ == old(self)@
                },
            },
    {
        let found = self.position(address);
        let stored = match found {
            Some(i) => Some(self.entries[i].account),
            None => None,
        };
        match IncrementGreeting::try_accounts(derived, address, stored, user) {
            Err(fault) => Err(fault),
            Ok(accounts) => {
                let mut ctx = Context { program_id: self.program_id, accounts };
                match send_a_message(&mut ctx) {
                    Err(fault) => Err(fault),
                    Ok(lines) => {
                        let i = found.unwrap();
                        let entry = Entry {
                            address: self.entries[i].address,
                            account: ctx.accounts.greeting_account,
                        };
                        proof {
                            lemma_entries_map_update(self.entries@, i as int, entry);
                        }
                        self.entries.set(i, entry);
                        Ok(lines)
                    },
                }
            },
        }
    }

    /// Greets the user whose record lives at `address`: derives the user's
    /// address under the program and goes on as `increment_at` does.
    pub fn increment(&mut self, address: &Pubkey, user: &AccountInfo) -> (outcome: Result<
        Vec<String>,
        GreetingError,
    >)
        requires
            old(self).wf(),
        ensures
            final(self).wf(),
            final(self).program() == old(self).program(),
            final(self).price() == old(self).price(),
            anchored(old(self)@, old(self).program()@) ==> anchored(
                final(self)@,
                final(self).program()@,
            ),
            match outcome {
                Ok(lines) => {
                    &&& greet_fault(
                        old(self)@,
                        greeting_address(old(self).program()@, user.key@),
                        address@,
                        *user,
                    ) is None
                    &&& final(self)@ == greeted(old(self)@, address@)
                    &&& lines_view(lines) == greeting_lines(final(self)@[address@].counter as nat)
                },
                Err(fault) => {
                    &&& greet_fault(
                        old(self)@,
                        greeting_address(old(self).program()@, user.key@),
                        address@,
                        *user,
                    ) == Some(fault)
                    &&& final(self)@ == old(self)@
                },
            },
    {
        let derived = find_greeting_address(&self.program_id, &user.key);
        self.increment_at(derived, address, user)
    }
}

} // verus!
