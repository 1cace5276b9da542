//! A counter, a king and the group of members that decides who may be king.
//!
//! Two calls increase the counter and two swap the king. Of each pair one
//! reads its slot again where it already holds the value, and one keeps the
//! value from its first read. Both write and announce the same; the slot's
//! meter tells them apart.

use crate::storage::{bump, StorageList, StorageValue};
use crate::system::{ensure_signed, AccountId, BlockNumber, Origin};
use vstd::prelude::*;

verus! {

/// What a call announces once it has gone through.
#[derive(Clone, Copy, Debug, PartialEq, Eq)]
pub enum Event {
    /// The counter was increased with a second read: the new value and the
    /// block of the call.
    InefficientValueChange(u32, BlockNumber),
    /// The counter was increased with one read: the new value and the block
    /// of the call.
    BetterValueChange(u32, BlockNumber),
    /// The king was swapped with a second read: the old king and the new.
    InefficientKingSwap(AccountId, AccountId),
    /// The king was swapped with one read: the old king and the new.
    BetterKingSwap(AccountId, AccountId),
}

/// Why a call was turned down.
#[derive(Clone, Copy, Debug, PartialEq, Eq)]
pub enum Error {
    /// No account signed the call.
    Unauthenticated,
    /// The counter was never set.
    Uninitialized,
    /// The increased counter does not fit in 32 bits.
    Overflow,
    /// The caller is in the group already.
    AlreadyMember,
    /// The king is a member of the group and keeps the throne.
    PriorityHeld,
    /// The caller is not a member of the group and cannot be king.
    NotEligible,
    /// There is no king to swap with.
    NoIncumbent,
}

/// The pallet as contracts see it.
#[verifier::ext_equal]
pub struct State {
    /// The counter, absent until it is first set.
    pub some_copy_value: Option<u32>,
    /// The king, absent until one is first set.
    pub king_member: Option<AccountId>,
    /// The members of the group, oldest first.
    pub group_members: Seq<AccountId>,
    /// The events deposited so far, oldest first.
    pub events: Seq<Event>,
    /// How many times calls have read the counter.
    pub value_reads: u64,
    /// How many times calls have read the king.
    pub king_reads: u64,
}

/// The counter after an increase by `some_val`: what it was, plus
/// `some_val`, plus what it was once more. `None` where that does not fit
/// in 32 bits.
pub open spec fn increased(original: u32, some_val: u32) -> Option<u32> {
    if original + some_val + original <= u32::MAX {
        Some((original + some_val + original) as u32)
    } else {
        None
    }
}

impl State {
    /// Nothing stored, nothing announced, nothing read.
    pub open spec fn empty() -> State {
        State {
            some_copy_value: None,
            king_member: None,
            group_members: Seq::empty(),
            events: Seq::empty(),
            value_reads: 0,
            king_reads: 0,
        }
    }

    /// What storage holds: the counter, the king and the group.
    pub open spec fn stored(self) -> (Option<u32>, Option<AccountId>, Seq<AccountId>) {
        (self.some_copy_value, self.king_member, self.group_members)
    }

    /// Whether `who` is in the group.
    pub open spec fn is_member(self, who: AccountId) -> bool {
        self.group_members.contains(who)
    }

    /// The king that `new_king` would replace, or why it may not: there is
    /// no king, the king is a member, or `new_king` is none.
    pub open spec fn outgoing_king(self, new_king: AccountId) -> Result<AccountId, Error> {
        match self.king_member {
            None => Err(Error::NoIncumbent),
            Some(existing_king) => if self.is_member(existing_king) {
                Err(Error::PriorityHeld)
            } else if !self.is_member(new_king) {
                Err(Error::NotEligible)
            } else {
                Ok(existing_king)
            },
        }
    }

    /// Increases the counter and reads it twice on the way: once before the
    /// first addition and once more before the second. The second read does
    /// not happen where the counter is absent or the first addition
    /// overflows.
    pub open spec fn increase_value_no_cache(
        self,
        origin: Origin,
        some_val: u32,
        now: BlockNumber,
    ) -> (State, Result<(), Error>) {
        match origin.signer() {
            None => (self, Err(Error::Unauthenticated)),
            Some(_) => match self.some_copy_value {
                None => (
                    State { value_reads: bump(self.value_reads), ..self },
                    Err(Error::Uninitialized),
                ),
                Some(original) => if original + some_val > u32::MAX {
                    (State { value_reads: bump(self.value_reads), ..self }, Err(Error::Overflow))
                } else {
                    match increased(original, some_val) {
                        None => (
                            State { value_reads: bump(bump(self.value_reads)), ..self },
                            Err(Error::Overflow),
                        ),
                        Some(result) => (
                            State {
                                some_copy_value: Some(result),
                                events: self.events.push(
                                    Event::InefficientValueChange(result, now),
                                ),
                                value_reads: bump(bump(self.value_reads)),
                                ..self
                            },
                            Ok(()),
                        ),
                    }
                },
            },
        }
    }

    /// Increases the counter with the one read that it needs.
    pub open spec fn increase_value_w_copy(
        self,
        origin: Origin,
        some_val: u32,
        now: BlockNumber,
    ) -> (State, Result<(), Error>) {
        match origin.signer() {
            None => (self, Err(Error::Unauthenticated)),
            Some(_) => match self.some_copy_value {
                None => (
                    State { value_reads: bump(self.value_reads), ..self },
                    Err(Error::Uninitialized),
                ),
                Some(original) => match increased(original, some_val) {
                    None => (
                        State { value_reads: bump(self.value_reads), ..self },
                        Err(Error::Overflow),
                    ),
                    Some(result) => (
                        State {
                            some_copy_value: Some(result),
                            events: self.events.push(Event::BetterValueChange(result, now)),
                            value_reads: bump(self.value_reads),
                            ..self
                        },
                        Ok(()),
                    ),
                },
            },
        }
    }

    /// Makes the signer king where `outgoing_king` allows it, and reads the
    /// king once more before it writes.
    pub open spec fn swap_king_no_cache(self, origin: Origin) -> (State, Result<(), Error>) {
        match origin.signer() {
            None => (self, Err(Error::Unauthenticated)),
            Some(new_king) => match self.outgoing_king(new_king) {
                Err(e) => (State { king_reads: bump(self.king_reads), ..self }, Err(e)),
                Ok(old_king) => (
                    State {
                        king_member: Some(new_king),
                        events: self.events.push(Event::InefficientKingSwap(old_king, new_king)),
                        king_reads: bump(bump(self.king_reads)),
                        ..self
                    },
                    Ok(()),
                ),
            },
        }
    }

    /// Makes the signer king where `outgoing_king` allows it, with one read
    /// of the king.
    pub open spec fn swap_king_with_cache(self, origin: Origin) -> (State, Result<(), Error>) {
        match origin.signer() {
            None => (self, Err(Error::Unauthenticated)),
            Some(new_king) => match self.outgoing_king(new_king) {
                Err(e) => (State { king_reads: bump(self.king_reads), ..self }, Err(e)),
                Ok(old_king) => (
                    State {
                        king_member: Some(new_king),
                        events: self.events.push(Event::BetterKingSwap(old_king, new_king)),
                        king_reads: bump(self.king_reads),
                        ..self
                    },
                    Ok(()),
                ),
            },
        }
    }

    /// The counter becomes `val`, whatever it was. No event.
    pub open spec fn set_copy(self, origin: Origin, val: u32) -> (State, Result<(), Error>) {
        match origin.signer() {
            None => (self, Err(Error::Unauthenticated)),
            Some(_) => (State { some_copy_value: Some(val), ..self }, Ok(())),
        }
    }

    /// The signer becomes king, whoever was. No event.
    pub open spec fn set_king(self, origin: Origin) -> (State, Result<(), Error>) {
        match origin.signer() {
            None => (self, Err(Error::Unauthenticated)),
            Some(user) => (State { king_member: Some(user), ..self }, Ok(())),
        }
    }

    /// The signer joins the group, unless it is a member already. No event.
    pub open spec fn mock_add_member(self, origin: Origin) -> (State, Result<(), Error>) {
        match origin.signer() {
            None => (self, Err(Error::Unauthenticated)),
            Some(added) => if self.is_member(added) {
                (self, Err(Error::AlreadyMember))
            } else {
                (State { group_members: self.group_members.push(added), ..self }, Ok(()))
            },
        }
    }
}

/// The group: accounts in the order in which they joined, none of them
/// twice.
pub struct Group {
    members: StorageList,
}

impl View for Group {
    type V = Seq<AccountId>;

    closed spec fn view(&self) -> Seq<AccountId> {
        self.members.items()
    }
}

impl Group {
    /// Holds of every group at all times: no account is in it twice.
    #[verifier::type_invariant]
    spec fn members_are_unique(self) -> bool {
        self.members.items().no_duplicates()
    }

    /// A group without members.
    pub fn new() -> (group: Self)
        ensures
            group@ == Seq::<AccountId>::empty(),
    {
        Group { members: StorageList::new() }
    }

    /// Whether `who` is in the group.
    pub fn contains(&self, who: AccountId) -> (r: bool)
        ensures
            r == self@.contains(who),
    {
        self.members.contains(who)
    }

    /// Lets `who` join at the end, unless it is a member already. Returns
    /// whether it joined.
    pub fn join(&mut self, who: AccountId) -> (joined: bool)
        ensures
            joined == !old(self)@.contains(who),
            final(self)@ == (if joined {
                old(self)@.push(who)
            } else {
                old(self)@
            }),
            final(self)@.no_duplicates(),
    {
        proof {
            use_type_invariant(&*self);
        }
        if self.members.contains(who) {
            return false;
        }
        // The list grows outside the group, which holds an empty one
        // meanwhile: the group is never seen with a list that breaks its
        // invariant, even if the append unwinds.
        let mut members = StorageList::new();
        std::mem::swap(&mut members, &mut self.members);
        members.append(who);
        self.members = members;
        true
    }

    /// The members, oldest first.
    pub fn members(&self) -> (r: &Vec<AccountId>)
        ensures
            r@ == self@,
            r@.no_duplicates(),
    {
        proof {
            use_type_invariant(self);
        }
        self.members.peek()
    }
}

/// The account that signed `origin`, or `Unauthenticated`.
pub fn signed_by(origin: Origin) -> (r: Result<AccountId, Error>)
    ensures
        r == (match origin.signer() {
            Some(who) => Ok::<AccountId, Error>(who),
            None => Err::<AccountId, Error>(Error::Unauthenticated),
        }),
{
    match ensure_signed(origin) {
        Ok(who) => Ok(who),
        Err(_) => Err(Error::Unauthenticated),
    }
}

/// The first addition of an increase: the counter as it was read, plus
/// `some_val`. `Uninitialized` where the read found no counter, `Overflow`
/// where the sum does not fit in 32 bits.
pub fn first_addition(original_call: Option<u32>, some_val: u32) -> (r: Result<u32, Error>)
    ensures
        r == (match original_call {
            None => Err::<u32, Error>(Error::Uninitialized),
            Some(original) => if original + some_val > u32::MAX {
                Err::<u32, Error>(Error::Overflow)
            } else {
                Ok::<u32, Error>((original + some_val) as u32)
            },
        }),
{
    match original_call {
        None => Err(Error::Uninitialized),
        Some(original) => match original.checked_add(some_val) {
            Some(some_calculation) => Ok(some_calculation),
            None => Err(Error::Overflow),
        },
    }
}

/// The second addition of an increase: the first sum, plus the counter as
/// it was read. `Uninitialized` where the read found no counter, `Overflow`
/// where the sum does not fit in 32 bits.
pub fn second_addition(some_calculation: u32, counter: Option<u32>) -> (r: Result<u32, Error>)
    ensures
        r == (match counter {
            None => Err::<u32, Error>(Error::Uninitialized),
            Some(value) => if some_calculation + value > u32::MAX {
                Err::<u32, Error>(Error::Overflow)
            } else {
                Ok::<u32, Error>((some_calculation + value) as u32)
            },
        }),
{
    match counter {
        None => Err(Error::Uninitialized),
        Some(value) => match some_calculation.checked_add(value) {
            Some(another_calculation) => Ok(another_calculation),
            None => Err(Error::Overflow),
        },
    }
}

/// Whether the caller may take the throne. `king_is_member` says whether
/// the king is in the group, and is `None` where there is no king;
/// `caller_is_member` says whether the caller is. `NoIncumbent` without a
/// king, `PriorityHeld` where the king is a member, `NotEligible` where the
/// caller is none; the first of these that applies.
pub fn swap_verdict(king_is_member: Option<bool>, caller_is_member: bool) -> (r: Result<(), Error>)
    ensures
        r == (match king_is_member {
            None => Err::<(), Error>(Error::NoIncumbent),
            Some(true) => Err::<(), Error>(Error::PriorityHeld),
            Some(false) => if caller_is_member {
                Ok::<(), Error>(())
            } else {
                Err::<(), Error>(Error::NotEligible)
            },
        }),
{
    match king_is_member {
        None => Err(Error::NoIncumbent),
        Some(true) => Err(Error::PriorityHeld),
        Some(false) => if caller_is_member {
            Ok(())
        } else {
            Err(Error::NotEligible)
        },
    }
}

/// Whether an account that asks to join may: `AlreadyMember` where it is in
/// the group.
pub fn join_verdict(is_member: bool) -> (r: Result<(), Error>)
    ensures
        r == (if is_member {
            Err::<(), Error>(Error::AlreadyMember)
        } else {
            Ok::<(), Error>(())
        }),
{
    if is_member {
        Err(Error::AlreadyMember)
    } else {
        Ok(())
    }
}

/// The pallet: its storage and the events it has deposited.
pub struct Pallet {
    some_copy_value: StorageValue<u32>,
    king_member: StorageValue<AccountId>,
    group_members: Group,
    events: Vec<Event>,
}

impl View for Pallet {
    type V = State;

    closed spec fn view(&self) -> State {
        State {
            some_copy_value: self.some_copy_value.value(),
            king_member: self.king_member.value(),
            group_members: self.group_members@,
            events: self.events@,
            value_reads: self.some_copy_value.reads(),
            king_reads: self.king_member.reads(),
        }
    }
}

impl Pallet {
    /// A pallet with empty storage.
    pub fn new() -> (pallet: Self)
        ensures
            pallet@ == State::empty(),
    {
        Pallet {
            some_copy_value: StorageValue::new(),
            king_member: StorageValue::new(),
            group_members: Group::new(),
            events: Vec::new(),
        }
    }

    /// Whether the king that was read is in the group; `None` where the
    /// read found no king.
    fn king_is_member(&self, king: Option<AccountId>) -> (r: Option<bool>)
        ensures
            r == (match king {
                Some(who) => Some(self@.is_member(who)),
                None => None,
            }),
    {
        match king {
            Some(who) => Some(self.is_member(&who)),
            None => None,
        }
    }

    /// Increases the counter by `some_val` and by itself, and reads the
    /// counter a second time where the first read would have done.
    pub fn increase_value_no_cache(&mut self, origin: Origin, some_val: u32, now: BlockNumber) -> (r:
        Result<(), Error>)
        ensures
            final(self)@ == old(self)@.increase_value_no_cache(origin, some_val, now).0,
            r == old(self)@.increase_value_no_cache(origin, some_val, now).1,
    {
        let _ = signed_by(origin)?;
        let original_call = self.some_copy_value.get();
        let some_calculation = first_addition(original_call, some_val)?;
        let unnecessary_call = self.some_copy_value.get();
        let another_calculation = second_addition(some_calculation, unnecessary_call)?;
        self.some_copy_value.put(another_calculation);
        self.events.push(Event::InefficientValueChange(another_calculation, now));
        Ok(())
    }

    /// Increases the counter by `some_val` and by itself, with one read.
    pub fn increase_value_w_copy(&mut self, origin: Origin, some_val: u32, now: BlockNumber) -> (r:
        Result<(), Error>)
        ensures
            final(self)@ == old(self)@.increase_value_w_copy(origin, some_val, now).0,
            r == old(self)@.increase_value_w_copy(origin, some_val, now).1,
    {
        let _ = signed_by(origin)?;
        let original_call = self.some_copy_value.get();
        let some_calculation = first_addition(original_call, some_val)?;
        let another_calculation = second_addition(some_calculation, original_call)?;
        self.some_copy_value.put(another_calculation);
        self.events.push(Event::BetterValueChange(another_calculation, now));
        Ok(())
    }

    /// Makes the caller king if the king is no member and the caller is
    /// one, and reads the king a second time where the first read would
    /// have done.
    pub fn swap_king_no_cache(&mut self, origin: Origin) -> (r: Result<(), Error>)
        ensures
            final(self)@ == old(self)@.swap_king_no_cache(origin).0,
            r == old(self)@.swap_king_no_cache(origin).1,
    {
        let new_king = signed_by(origin)?;
        let existing_king = self.king_member.get();
        swap_verdict(self.king_is_member(existing_king), self.is_member(&new_king))?;
        let old_king = self.king_member.get();
        self.king_member.put(new_king);
        self.events.push(Event::InefficientKingSwap(old_king.unwrap(), new_king));
        Ok(())
    }

    /// Makes the caller king if the king is no member and the caller is
    /// one, with one read of the king.
    pub fn swap_king_with_cache(&mut self, origin: Origin) -> (r: Result<(), Error>)
        ensures
            final(self)@ == old(self)@.swap_king_with_cache(origin).0,
            r == old(self)@.swap_king_with_cache(origin).1,
    {
        let new_king = signed_by(origin)?;
        let existing_king = self.king_member.get();
        swap_verdict(self.king_is_member(existing_king), self.is_member(&new_king))?;
        self.king_member.put(new_king);
        self.events.push(Event::BetterKingSwap(existing_king.unwrap(), new_king));
        Ok(())
    }

    /// Sets the counter.
    pub fn set_copy(&mut self, origin: Origin, val: u32) -> (r: Result<(), Error>)
        ensures
            final(self)@ == old(self)@.set_copy(origin, val).0,
            r == old(self)@.set_copy(origin, val).1,
    {
        let _ = signed_by(origin)?;
        self.some_copy_value.put(val);
        Ok(())
    }

    /// Makes the caller king, whoever was.
    pub fn set_king(&mut self, origin: Origin) -> (r: Result<(), Error>)
        ensures
            final(self)@ == old(self)@.set_king(origin).0,
            r == old(self)@.set_king(origin).1,
    {
        let user = signed_by(origin)?;
        self.king_member.put(user);
        Ok(())
    }

    /// Adds the caller to the group.
    pub fn mock_add_member(&mut self, origin: Origin) -> (r: Result<(), Error>)
        ensures
            final(self)@ == old(self)@.mock_add_member(origin).0,
            r == old(self)@.mock_add_member(origin).1,
    {
        let added = signed_by(origin)?;
        let joined = self.group_members.join(added);
        join_verdict(!joined)
    }

    /// Whether `who` is in the group.
    pub fn is_member(&self, who: &AccountId) -> (r: bool)
        ensures
            r == self@.is_member(*who),
    {
        self.group_members.contains(*who)
    }

    /// The counter as it stands in storage, without a metered read.
    pub fn some_copy_value(&self) -> (r: Option<u32>)
        ensures
            r == self@.some_copy_value,
    {
        self.some_copy_value.peek()
    }

    /// The king as it stands in storage, without a metered read.
    pub fn king_member(&self) -> (r: Option<AccountId>)
        ensures
            r == self@.king_member,
    {
        self.king_member.peek()
    }

    /// The members of the group, oldest first and none of them twice.
    pub fn group_members(&self) -> (r: &Vec<AccountId>)
        ensures
            r@ == self@.group_members,
            r@.no_duplicates(),
    {
        self.group_members.members()
    }

    /// The events deposited so far, oldest first.
    pub fn events(&self) -> (r: &Vec<Event>)
        ensures
            r@ == self@.events,
    {
        &self.events
    }

    /// How many times calls have read the counter.
    pub fn value_reads(&self) -> (r: u64)
        ensures
            r == self@.value_reads,
    {
        self.some_copy_value.read_count()
    }

    /// How many times calls have read the king.
    pub fn king_reads(&self) -> (r: u64)
        ensures
            r == self@.king_reads,
    {
        self.king_member.read_count()
    }
}

/// The two increases agree on every input: both go through or both fail
/// with the same error, and both leave the same counter, king and group.
/// Where they go through, each deposits its own event, with the same value
/// and block.
pub proof fn lemma_increases_agree(s: State, origin: Origin, some_val: u32, now: BlockNumber)
    ensures
        ({
            let (twice, r_twice) = s.increase_value_no_cache(origin, some_val, now);
            let (once, r_once) = s.increase_value_w_copy(origin, some_val, now);
            &&& r_twice == r_once
            &&& twice.some_copy_value == once.some_copy_value
            &&& twice.king_member == once.king_member
            &&& twice.group_members == once.group_members
            &&& twice.king_reads == once.king_reads
            &&& r_once is Err ==> twice.events == s.events && once.events == s.events
            &&& r_once is Ok ==> {
                &&& twice.events == s.events.push(
                    Event::InefficientValueChange(once.some_copy_value->0, now),
                )
                &&& once.events == s.events.push(
                    Event::BetterValueChange(once.some_copy_value->0, now),
                )
            }
        }),
{
}

/// Where the counter is set and the first addition fits, the increase
/// without a cache reads the counter exactly once more than the increase
/// with one, whether or not the second addition fits. On every other input
/// both read it equally often.
pub proof fn lemma_no_cache_reads_once_more(
    s: State,
    origin: Origin,
    some_val: u32,
    now: BlockNumber,
)
    ensures
        ({
            let twice = s.increase_value_no_cache(origin, some_val, now).0;
            let once = s.increase_value_w_copy(origin, some_val, now).0;
            let reads_again = origin.signer() is Some && s.some_copy_value is Some
                && s.some_copy_value->0 + some_val <= u32::MAX;
            &&& reads_again ==> twice.value_reads == bump(once.value_reads)
            &&& reads_again && s.value_reads + 2 <= u64::MAX ==> twice.value_reads
                == once.value_reads + 1
            &&& !reads_again ==> twice.value_reads == once.value_reads
        }),
{
}

/// The two swaps agree on every input: both go through or both fail with
/// the same error, and both leave the same king, counter and group. Where
/// they go through, each deposits its own event, with the same two kings,
/// and the swap without a cache has read the king once more.
pub proof fn lemma_swaps_agree(s: State, origin: Origin)
    ensures
        ({
            let (twice, r_twice) = s.swap_king_no_cache(origin);
            let (once, r_once) = s.swap_king_with_cache(origin);
            &&& r_twice == r_once
            &&& twice.king_member == once.king_member
            &&& twice.some_copy_value == once.some_copy_value
            &&& twice.group_members == once.group_members
            &&& twice.value_reads == once.value_reads
            &&& r_once is Err ==> {
                &&& twice == once
                &&& once.king_member == s.king_member
                &&& once.events == s.events
            }
            &&& r_once is Ok ==> {
                &&& once.king_member == origin.signer()
                &&& twice.events == s.events.push(
                    Event::InefficientKingSwap(s.king_member->0, origin.signer()->0),
                )
                &&& once.events == s.events.push(
                    Event::BetterKingSwap(s.king_member->0, origin.signer()->0),
                )
                &&& twice.king_reads == bump(once.king_reads)
            }
        }),
{
}

/// A swap goes through exactly when an account signed the call, there is a
/// king, the king is no member and the signer is one.
pub proof fn lemma_swap_goes_through(s: State, origin: Origin)
    ensures
        s.swap_king_with_cache(origin).1 is Ok <==> {
            &&& origin.signer() is Some
            &&& s.king_member is Some
            &&& !s.is_member(s.king_member->0)
            &&& s.is_member(origin.signer()->0)
        },
{
}

/// After an account has asked to join, it is a member, whether it joined
/// just now or was one before; and when it asks again, the call fails with
/// `AlreadyMember` and changes nothing.
pub proof fn lemma_add_member_twice(s: State, who: AccountId)
    ensures
        ({
            let (first, r_first) = s.mock_add_member(Origin::Signed(who));
            let (second, r_second) = first.mock_add_member(Origin::Signed(who));
            &&& first.is_member(who)
            &&& r_first is Ok <==> !s.is_member(who)
            &&& r_second == Err::<(), Error>(Error::AlreadyMember)
            &&& second == first
        }),
{
    let first = s.mock_add_member(Origin::Signed(who)).0;
    if !s.is_member(who) {
        assert(first.group_members[s.group_members.len() as int] == who);
    }
}

/// No call puts an account into the group twice, and none takes a member
/// out.
pub proof fn lemma_group_only_grows(
    s: State,
    origin: Origin,
    val: u32,
    now: BlockNumber,
    member: AccountId,
)
    requires
        s.group_members.no_duplicates(),
        s.is_member(member),
    ensures
        ({
            let after = s.mock_add_member(origin).0;
            after.group_members.no_duplicates() && after.is_member(member)
        }),
        s.increase_value_no_cache(origin, val, now).0.group_members == s.group_members,
        s.increase_value_w_copy(origin, val, now).0.group_members == s.group_members,
        s.swap_king_no_cache(origin).0.group_members == s.group_members,
        s.swap_king_with_cache(origin).0.group_members == s.group_members,
        s.set_copy(origin, val).0.group_members == s.group_members,
        s.set_king(origin).0.group_members == s.group_members,
{
    let after = s.mock_add_member(origin).0;
    let i = choose|i: int| 0 <= i < s.group_members.len() && s.group_members[i] == member;
    assert(after.group_members[i] == member);
}

/// A call that fails writes nothing and announces nothing.
pub proof fn lemma_failed_call_changes_nothing(
    s: State,
    origin: Origin,
    val: u32,
    now: BlockNumber,
)
    ensures
        ({
            let (after, r) = s.increase_value_no_cache(origin, val, now);
            r is Err ==> after.stored() == s.stored() && after.events == s.events
        }),
        ({
            let (after, r) = s.increase_value_w_copy(origin, val, now);
            r is Err ==> after.stored() == s.stored() && after.events == s.events
        }),
        ({
            let (after, r) = s.swap_king_no_cache(origin);
            r is Err ==> after.stored() == s.stored() && after.events == s.events
        }),
        ({
            let (after, r) = s.swap_king_with_cache(origin);
            r is Err ==> after.stored() == s.stored() && after.events == s.events
        }),
        ({
            let (after, r) = s.set_copy(origin, val);
            r is Err ==> after == s
        }),
        ({
            let (after, r) = s.set_king(origin);
            r is Err ==> after == s
        }),
        ({
            let (after, r) = s.mock_add_member(origin);
            r is Err ==> after == s
        }),
{
}

} // verus!
