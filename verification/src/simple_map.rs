//! One number for each account.
//!
//! Only the owner of an entry sets, takes or increases it; every signed
//! caller may read the entry of any account. An absent entry is not an
//! entry of zero.

use crate::storage::{bump, StorageMap};
use crate::system::{ensure_signed, AccountId, Origin};
use vstd::prelude::*;

verus! {

/// What a call announces once it has gone through.
#[derive(Clone, Copy, Debug, PartialEq, Eq)]
pub enum Event {
    /// An account has set its entry: the account and the value.
    EntrySet(AccountId, u32),
    /// A caller has read an entry, which stays in storage: the caller (not
    /// the account whose entry it is) and the value.
    EntryGot(AccountId, u32),
    /// An account has read its entry and removed it: the account and the
    /// value.
    EntryTaken(AccountId, u32),
    /// An account has increased its entry: the account, the value before
    /// and the value after.
    EntryIncreased(AccountId, u32, u32),
}

/// Why a call was turned down.
#[derive(Clone, Copy, Debug, PartialEq, Eq)]
pub enum Error {
    /// No account signed the call.
    Unauthenticated,
    /// The account has no entry.
    NoValueStored,
    /// The entry cannot grow by that much: the sum does not fit in 32 bits.
    MaxValueReached,
}

/// The pallet as contracts see it.
#[verifier::ext_equal]
pub struct State {
    /// The entries in storage.
    pub entries: Map<AccountId, u32>,
    /// The events deposited so far, oldest first.
    pub events: Seq<Event>,
    /// How many entries calls have read so far.
    pub reads: u64,
}

impl State {
    /// Nothing stored, nothing announced, nothing read.
    pub open spec fn empty() -> State {
        State { entries: Map::empty(), events: Seq::empty(), reads: 0 }
    }

    /// The entry of `who`, if it has one.
    pub open spec fn entry(self, who: AccountId) -> Option<u32> {
        if self.entries.contains_key(who) {
            Some(self.entries[who])
        } else {
            None
        }
    }

    /// The signer's entry becomes `entry`, whatever it was, and `EntrySet`
    /// is deposited. Nothing is read.
    pub open spec fn set_single_entry(self, origin: Origin, entry: u32) -> (State, Result<
        (),
        Error,
    >) {
        match origin.signer() {
            None => (self, Err(Error::Unauthenticated)),
            Some(user) => (
                State {
                    entries: self.entries.insert(user, entry),
                    events: self.events.push(Event::EntrySet(user, entry)),
                    ..self
                },
                Ok(()),
            ),
        }
    }

    /// One read of the entry of `account`. Where it is present its value is
    /// returned and `EntryGot` is deposited, with the signer and the value.
    /// The entries stay as they are.
    pub open spec fn get_single_entry(self, origin: Origin, account: AccountId) -> (State, Result<
        u32,
        Error,
    >) {
        match origin.signer() {
            None => (self, Err(Error::Unauthenticated)),
            Some(getter) => match self.entry(account) {
                None => (State { reads: bump(self.reads), ..self }, Err(Error::NoValueStored)),
                Some(entry) => (
                    State {
                        events: self.events.push(Event::EntryGot(getter, entry)),
                        reads: bump(self.reads),
                        ..self
                    },
                    Ok(entry),
                ),
            },
        }
    }

    /// One read of the signer's entry, which leaves storage. Where it was
    /// present its value is returned and `EntryTaken` is deposited.
    pub open spec fn take_single_entry(self, origin: Origin) -> (State, Result<u32, Error>) {
        match origin.signer() {
            None => (self, Err(Error::Unauthenticated)),
            Some(user) => match self.entry(user) {
                None => (State { reads: bump(self.reads), ..self }, Err(Error::NoValueStored)),
                Some(entry) => (
                    State {
                        entries: self.entries.remove(user),
                        events: self.events.push(Event::EntryTaken(user, entry)),
                        reads: bump(self.reads),
                    },
                    Ok(entry),
                ),
            },
        }
    }

    /// One read of the signer's entry. Where it is present and the sum with
    /// `add_this_val` fits in 32 bits, the sum is written and
    /// `EntryIncreased` is deposited; otherwise nothing is written.
    pub open spec fn increase_single_entry(self, origin: Origin, add_this_val: u32) -> (State, Result<
        (),
        Error,
    >) {
        match origin.signer() {
            None => (self, Err(Error::Unauthenticated)),
            Some(user) => match self.entry(user) {
                None => (State { reads: bump(self.reads), ..self }, Err(Error::NoValueStored)),
                Some(original_value) => if original_value + add_this_val > u32::MAX {
                    (State { reads: bump(self.reads), ..self }, Err(Error::MaxValueReached))
                } else {
                    let new_value = (original_value + add_this_val) as u32;
                    (
                        State {
                            entries: self.entries.insert(user, new_value),
                            events: self.events.push(
                                Event::EntryIncreased(user, original_value, new_value),
                            ),
                            reads: bump(self.reads),
                        },
                        Ok(()),
                    )
                },
            },
        }
    }
}

/// The account that signed `origin`, or `Unauthenticated`.
pub fn signed_by(origin: Origin) -> (r: Result<AccountId, Error>)
    ensures
        r == (match origin.signer() {
            Some(who) => Ok::<AccountId, Error>(who),
            None => Err::<AccountId, Error>(Error::Unauthenticated),
        }),
{
    match ensure_signed(origin) {
        Ok(who) => Ok(who),
        Err(_) => Err(Error::Unauthenticated),
    }
}

/// The value that was read from an entry, or `NoValueStored` where the
/// read found none.
pub fn stored_value(entry: Option<u32>) -> (r: Result<u32, Error>)
    ensures
        r == (match entry {
            Some(value) => Ok::<u32, Error>(value),
            None => Err::<u32, Error>(Error::NoValueStored),
        }),
{
    match entry {
        Some(value) => Ok(value),
        None => Err(Error::NoValueStored),
    }
}

/// `original_value + add_this_val`, or `MaxValueReached` where the sum does
/// not fit in 32 bits.
pub fn increased_value(original_value: u32, add_this_val: u32) -> (r: Result<u32, Error>)
    ensures
        r == (if original_value + add_this_val > u32::MAX {
            Err::<u32, Error>(Error::MaxValueReached)
        } else {
            Ok::<u32, Error>((original_value + add_this_val) as u32)
        }),
{
    match original_value.checked_add(add_this_val) {
        Some(new_value) => Ok(new_value),
        None => Err(Error::MaxValueReached),
    }
}

/// The pallet: its storage and the events it has deposited.
pub struct Pallet {
    simple_map: StorageMap<u32>,
    events: Vec<Event>,
}

impl View for Pallet {
    type V = State;

    closed spec fn view(&self) -> State {
        State {
            entries: self.simple_map.entries(),
            events: self.events@,
            reads: self.simple_map.reads(),
        }
    }
}

impl Pallet {
    /// A pallet with empty storage.
    pub fn new() -> (pallet: Self)
        ensures
            pallet@ == State::empty(),
    {
        Pallet { simple_map: StorageMap::new(), events: Vec::new() }
    }

    /// Sets the caller's own entry.
    pub fn set_single_entry(&mut self, origin: Origin, entry: u32) -> (r: Result<(), Error>)
        ensures
            final(self)@ == old(self)@.set_single_entry(origin, entry).0,
            r == old(self)@.set_single_entry(origin, entry).1,
    {
        let user = signed_by(origin)?;
        self.simple_map.insert(user, entry);
        self.events.push(Event::EntrySet(user, entry));
        Ok(())
    }

    /// Reads the entry of `account`, which may be any account, and returns
    /// its value.
    pub fn get_single_entry(&mut self, origin: Origin, account: AccountId) -> (r: Result<
        u32,
        Error,
    >)
        ensures
            final(self)@ == old(self)@.get_single_entry(origin, account).0,
            r == old(self)@.get_single_entry(origin, account).1,
    {
        let getter = signed_by(origin)?;
        let entry = stored_value(self.simple_map.get(account))?;
        self.events.push(Event::EntryGot(getter, entry));
        Ok(entry)
    }

    /// Reads the caller's own entry, removes it from storage and returns
    /// its value.
    pub fn take_single_entry(&mut self, origin: Origin) -> (r: Result<u32, Error>)
        ensures
            final(self)@ == old(self)@.take_single_entry(origin).0,
            r == old(self)@.take_single_entry(origin).1,
    {
        let user = signed_by(origin)?;
        let entry = stored_value(self.simple_map.take(user))?;
        self.events.push(Event::EntryTaken(user, entry));
        Ok(entry)
    }

    /// Increases the caller's own entry by `add_this_val`.
    pub fn increase_single_entry(&mut self, origin: Origin, add_this_val: u32) -> (r: Result<
        (),
        Error,
    >)
        ensures
            final(self)@ == old(self)@.increase_single_entry(origin, add_this_val).0,
            r == old(self)@.increase_single_entry(origin, add_this_val).1,
    {
        let user = signed_by(origin)?;
        let original_value = stored_value(self.simple_map.get(user))?;
        let new_value = increased_value(original_value, add_this_val)?;
        self.simple_map.insert(user, new_value);
        self.events.push(Event::EntryIncreased(user, original_value, new_value));
        Ok(())
    }

    /// The entry of `who` as it stands in storage, without a metered read.
    pub fn simple_map(&self, who: AccountId) -> (r: Option<u32>)
        ensures
            r == self@.entry(who),
    {
        self.simple_map.peek(who)
    }

    /// The events deposited so far, oldest first.
    pub fn events(&self) -> (r: &Vec<Event>)
        ensures
            r@ == self@.events,
    {
        &self.events
    }

    /// How many entries calls have read so far.
    pub fn reads(&self) -> (r: u64)
        ensures
            r == self@.reads,
    {
        self.simple_map.read_count()
    }
}

/// An entry that its owner has set is the value that every signed caller
/// gets from it, and the `EntryGot` that the read deposits carries that
/// value, whatever was stored before.
pub proof fn lemma_get_after_set(s: State, owner: AccountId, value: u32, getter: AccountId)
    ensures
        ({
            let stored = s.set_single_entry(Origin::Signed(owner), value).0;
            let (after, got) = stored.get_single_entry(Origin::Signed(getter), owner);
            &&& got == Ok::<u32, Error>(value)
            &&& after.events == stored.events.push(Event::EntryGot(getter, value))
            &&& after.entries == stored.entries
        }),
{
}

/// An entry that its owner has set is the value that the owner takes, and
/// once it is taken nobody gets it any more: the read fails with
/// `NoValueStored`.
pub proof fn lemma_take_after_set(s: State, owner: AccountId, value: u32, getter: AccountId)
    ensures
        ({
            let stored = s.set_single_entry(Origin::Signed(owner), value).0;
            let (taken, took) = stored.take_single_entry(Origin::Signed(owner));
            let (after, got) = taken.get_single_entry(Origin::Signed(getter), owner);
            &&& took == Ok::<u32, Error>(value)
            &&& taken.events == stored.events.push(Event::EntryTaken(owner, value))
            &&& got == Err::<u32, Error>(Error::NoValueStored)
            &&& after.entries == taken.entries
            &&& after.events == taken.events
        }),
{
}

/// An account without an entry cannot increase it: the call fails with
/// `NoValueStored`, and entries and events stay as they were.
pub proof fn lemma_increase_without_entry(s: State, owner: AccountId, add_this_val: u32)
    requires
        s.entry(owner) is None,
    ensures
        ({
            let (after, r) = s.increase_single_entry(Origin::Signed(owner), add_this_val);
            &&& r == Err::<(), Error>(Error::NoValueStored)
            &&& after.entries == s.entries
            &&& after.events == s.events
        }),
{
}

/// An increase whose sum does not fit in 32 bits fails with
/// `MaxValueReached`, and the entry stays at the value that was set.
pub proof fn lemma_increase_past_the_maximum(
    s: State,
    owner: AccountId,
    value: u32,
    add_this_val: u32,
)
    requires
        value + add_this_val > u32::MAX,
    ensures
        ({
            let stored = s.set_single_entry(Origin::Signed(owner), value).0;
            let (after, r) = stored.increase_single_entry(Origin::Signed(owner), add_this_val);
            &&& r == Err::<(), Error>(Error::MaxValueReached)
            &&& after.entry(owner) == Some(value)
            &&& after.entries == stored.entries
            &&& after.events == stored.events
        }),
{
}

/// An increase whose sum fits in 32 bits stores the sum and announces the
/// value before and the value after.
pub proof fn lemma_increase_after_set(s: State, owner: AccountId, value: u32, add_this_val: u32)
    requires
        value + add_this_val <= u32::MAX,
    ensures
        ({
            let stored = s.set_single_entry(Origin::Signed(owner), value).0;
            let (after, r) = stored.increase_single_entry(Origin::Signed(owner), add_this_val);
            let sum = (value + add_this_val) as u32;
            &&& r == Ok::<(), Error>(())
            &&& after.entry(owner) == Some(sum)
            &&& after.events == stored.events.push(Event::EntryIncreased(owner, value, sum))
        }),
{
}

/// Setting an entry twice to one value stores what setting it once
/// stores.
pub proof fn lemma_set_twice(s: State, owner: AccountId, value: u32)
    ensures
        ({
            let once = s.set_single_entry(Origin::Signed(owner), value).0;
            let twice = once.set_single_entry(Origin::Signed(owner), value).0;
            twice.entries == once.entries
        }),
{
    let once = s.set_single_entry(Origin::Signed(owner), value).0;
    let twice = once.set_single_entry(Origin::Signed(owner), value).0;
    assert(twice.entries =~= once.entries);
}

/// A read changes no entry, whoever reads and whether or not the read
/// succeeds.
pub proof fn lemma_get_keeps_entries(s: State, origin: Origin, account: AccountId)
    ensures
        s.get_single_entry(origin, account).0.entries == s.entries,
{
}

/// A call that fails writes nothing and announces nothing.
pub proof fn lemma_failed_call_changes_nothing(
    s: State,
    origin: Origin,
    account: AccountId,
    value: u32,
)
    ensures
        ({
            let (after, r) = s.set_single_entry(origin, value);
            r is Err ==> after.entries == s.entries && after.events == s.events
        }),
        ({
            let (after, r) = s.get_single_entry(origin, account);
            r is Err ==> after.entries == s.entries && after.events == s.events
        }),
        ({
            let (after, r) = s.take_single_entry(origin);
            r is Err ==> after.entries == s.entries && after.events == s.events
        }),
        ({
            let (after, r) = s.increase_single_entry(origin, value);
            r is Err ==> after.entries == s.entries && after.events == s.events
        }),
{
}

/// A call that goes through deposits exactly one event, writes to no
/// entry but the signer's own, and reads at most one entry.
pub proof fn lemma_call_touches_one_entry(
    s: State,
    origin: Origin,
    account: AccountId,
    value: u32,
    other: AccountId,
)
    requires
        origin.signer() != Some(other),
    ensures
        ({
            let (after, r) = s.set_single_entry(origin, value);
            &&& after.entry(other) == s.entry(other)
            &&& after.reads == s.reads
            &&& r is Ok ==> after.events.len() == s.events.len() + 1
        }),
        ({
            let (after, r) = s.get_single_entry(origin, account);
            &&& after.entry(other) == s.entry(other)
            &&& after.reads == s.reads || after.reads == bump(s.reads)
            &&& r is Ok ==> after.events.len() == s.events.len() + 1
        }),
        ({
            let (after, r) = s.take_single_entry(origin);
            &&& after.entry(other) == s.entry(other)
            &&& after.reads == s.reads || after.reads == bump(s.reads)
            &&& r is Ok ==> after.events.len() == s.events.len() + 1
        }),
        ({
            let (after, r) = s.increase_single_entry(origin, value);
            &&& after.entry(other) == s.entry(other)
            &&& after.reads == s.reads || after.reads == bump(s.reads)
            &&& r is Ok ==> after.events.len() == s.events.len() + 1
        }),
{
}

} // verus!
