//! The backing store: typed slots that count how often they are read.
//!
//! A dispatchable call reaches its state only through these primitives.
//! `get` and `take` fetch a value and are metered; `peek` and `contains`
//! inspect a slot from outside a call and leave the meter alone.

use crate::system::AccountId;
use std::collections::HashMap;
use vstd::prelude::*;

verus! {

/// The meter after one more read. It stops at `u64::MAX`.
pub open spec fn bump(reads: u64) -> u64 {
    if reads < u64::MAX {
        (reads + 1) as u64
    } else {
        reads
    }
}

/// A slot that holds at most one value.
pub struct StorageValue<T> {
    value: Option<T>,
    reads: u64,
}

impl<T: Copy> StorageValue<T> {
    /// The value in the slot, if there is one.
    pub closed spec fn value(&self) -> Option<T> {
        self.value
    }

    /// How many times the slot has been read.
    pub closed spec fn reads(&self) -> u64 {
        self.reads
    }

    /// An empty slot that was never read.
    pub fn new() -> (s: Self)
        ensures
            s.value() == None::<T>,
            s.reads() == 0,
    {
        StorageValue { value: None, reads: 0 }
    }

    /// Reads the slot: one metered read, the slot stays as it is.
    pub fn get(&mut self) -> (r: Option<T>)
        ensures
            r == old(self).value(),
            final(self).value() == old(self).value(),
            final(self).reads() == bump(old(self).reads()),
    {
        self.reads = self.reads.saturating_add(1);
        self.value
    }

    /// Writes `value` over whatever the slot held.
    pub fn put(&mut self, value: T)
        ensures
            final(self).value() == Some(value),
            final(self).reads() == old(self).reads(),
    {
        self.value = Some(value);
    }

    /// The value in the slot, without a metered read.
    pub fn peek(&self) -> (r: Option<T>)
        ensures
            r == self.value(),
    {
        self.value
    }

    /// The meter.
    pub fn read_count(&self) -> (r: u64)
        ensures
            r == self.reads(),
    {
        self.reads
    }
}

/// A slot for each account, each holding at most one value.
pub struct StorageMap<V> {
    entries: HashMap<AccountId, V>,
    reads: u64,
}

impl<V: Copy> StorageMap<V> {
    /// The accounts that have a value, each with its value.
    pub closed spec fn entries(&self) -> Map<AccountId, V> {
        self.entries@
    }

    /// How many times a slot of the map has been read.
    pub closed spec fn reads(&self) -> u64 {
        self.reads
    }

    /// A map without entries that was never read.
    pub fn new() -> (s: Self)
        ensures
            s.entries() == Map::<AccountId, V>::empty(),
            s.reads() == 0,
    {
        StorageMap { entries: HashMap::new(), reads: 0 }
    }

    /// Reads the slot of `key`: one metered read, the map stays as it is.
    pub fn get(&mut self, key: AccountId) -> (r: Option<V>)
        ensures
            r == (if old(self).entries().contains_key(key) {
                Some(old(self).entries()[key])
            } else {
                None
            }),
            final(self).entries() == old(self).entries(),
            final(self).reads() == bump(old(self).reads()),
    {
        self.reads = self.reads.saturating_add(1);
        match self.entries.get(&key) {
            Some(value) => Some(*value),
            None => None,
        }
    }

    /// Writes `value` into the slot of `key`, over whatever it held.
    pub fn insert(&mut self, key: AccountId, value: V)
        ensures
            final(self).entries() == old(self).entries().insert(key, value),
            final(self).reads() == old(self).reads(),
    {
        self.entries.insert(key, value);
    }

    /// Reads the slot of `key` and empties it: one metered read.
    pub fn take(&mut self, key: AccountId) -> (r: Option<V>)
        ensures
            r == (if old(self).entries().contains_key(key) {
                Some(old(self).entries()[key])
            } else {
                None
            }),
            final(self).entries() == old(self).entries().remove(key),
            final(self).reads() == bump(old(self).reads()),
    {
        self.reads = self.reads.saturating_add(1);
        self.entries.remove(&key)
    }

    /// The value in the slot of `key`, without a metered read.
    pub fn peek(&self, key: AccountId) -> (r: Option<V>)
        ensures
            r == (if self.entries().contains_key(key) {
                Some(self.entries()[key])
            } else {
                None
            }),
    {
        match self.entries.get(&key) {
            Some(value) => Some(*value),
            None => None,
        }
    }

    /// The meter.
    pub fn read_count(&self) -> (r: u64)
        ensures
            r == self.reads(),
    {
        self.reads
    }
}

/// An ordered list of accounts. The list itself admits repeats: a caller
/// that wants none asks `contains` before it appends.
pub struct StorageList {
    items: Vec<AccountId>,
}

impl StorageList {
    /// The accounts in the list, oldest first.
    pub closed spec fn items(&self) -> Seq<AccountId> {
        self.items@
    }

    /// An empty list.
    pub fn new() -> (s: Self)
        ensures
            s.items() == Seq::<AccountId>::empty(),
    {
        StorageList { items: Vec::new() }
    }

    /// Whether `who` is in the list.
    pub fn contains(&self, who: AccountId) -> (r: bool)
        ensures
            r == self.items().contains(who),
    {
        let mut i: usize = 0;
        while i < self.items.len()
            invariant
                i <= self.items.len(),
                forall|j: int| 0 <= j < i ==> self.items@[j] != who,
            decreases self.items.len() - i,
        {
            if self.items[i] == who {
                return true;
            }
            i += 1;
        }
        false
    }

    /// Adds `who` at the end.
    pub fn append(&mut self, who: AccountId)
        ensures
            final(self).items() == old(self).items().push(who),
    {
        self.items.push(who);
    }

    /// The accounts in the list, oldest first.
    pub fn peek(&self) -> (r: &Vec<AccountId>)
        ensures
            r@ == self.items(),
    {
        &self.items
    }
}

} // verus!
