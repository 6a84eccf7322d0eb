//! The record store: string-keyed storage of the service's stored shapes.
//!
//! [`MemoryStorageClient`] realizes the store's semantics — `set` always
//! overwrites, `get` misses both on an absent key and on a value of the wrong
//! shape, `delete` reports whether something was removed — on an in-memory
//! map. [`NotImplementedYetClient`] is the deliberate no-op placeholder for
//! unsupported storage addresses.

use vstd::prelude::*;
use crate::assoc::AssocList;
use crate::pub_keys::PubKeys;
use crate::user::{User, UserView};

verus! {

/// Why a store operation failed. The in-memory store never fails; the
/// variant exists for hosts that persist records elsewhere.
#[derive(Debug)]
pub enum StorageError {
    Backend,
}

/// Spec-level image of a stored value.
pub ghost enum StorageValueView {
    User(UserView),
    Keys(Map<Seq<char>, Seq<char>>),
}

/// A value the service stores: a user record or the aggregate key index.
pub enum StorageValue {
    User(User),
    Keys(PubKeys),
}

impl View for StorageValue {
    type V = StorageValueView;

    open spec fn view(&self) -> StorageValueView {
        match self {
            StorageValue::User(u) => StorageValueView::User(u@),
            StorageValue::Keys(k) => StorageValueView::Keys(k@),
        }
    }
}

/// An in-memory record store.
pub struct MemoryStorageClient {
    entries: AssocList<StorageValue>,
}

impl View for MemoryStorageClient {
    type V = Map<Seq<char>, StorageValueView>;

    closed spec fn view(&self) -> Map<Seq<char>, StorageValueView> {
        self.entries@
    }
}

impl MemoryStorageClient {
    /// An empty store.
    pub fn new() -> (r: Self)
        ensures
            r@ == Map::<Seq<char>, StorageValueView>::empty(),
    {
        MemoryStorageClient { entries: AssocList::new() }
    }

    /// The value stored at `key`, if any.
    pub fn get(&self, key: &str) -> (r: Option<&StorageValue>)
        ensures
            match r {
                Some(v) => self@.contains_key(key@) && v@ == self@[key@],
                None => !self@.contains_key(key@),
            },
    {
        self.entries.get(key)
    }

    /// Stores `value` at `key`, overwriting whatever was there.
    pub fn set(&mut self, key: &str, value: StorageValue) -> (r: Result<(), StorageError>)
        ensures
            r is Ok,
            final(self)@ == old(self)@.insert(key@, value@),
    {
        self.entries.insert(key, value);
        Ok(())
    }

    /// Removes `key`; true exactly when something was stored there.
    pub fn delete(&mut self, key: &str) -> (r: bool)
        ensures
            final(self)@ == old(self)@.remove(key@),
            r == old(self)@.contains_key(key@),
    {
        match self.entries.remove(key) {
            Some(_) => true,
            None => false,
        }
    }
}

/// The placeholder backend for unsupported storage addresses: it stores
/// nothing, reports every write as a success, and never removes anything.
pub struct NotImplementedYetClient {}

impl NotImplementedYetClient {
    pub fn get(&self, _key: &str) -> (r: Option<StorageValue>)
        ensures
            r is None,
    {
        None
    }

    pub fn set(&self, _key: &str, _value: StorageValue) -> (r: Result<(), StorageError>)
        ensures
            r is Ok,
    {
        Ok(())
    }

    pub fn delete(&self, _key: &str) -> (r: bool)
        ensures
            !r,
    {
        false
    }
}

} // verus!
