//! The badge-backed user registry.
//!
//! The registry models the non-fungible store that holds one badge record
//! per user id. Records are never deleted: blacklisting only flips the
//! mutable flag, and the immutable identity data is preserved for the life
//! of the badge.

use std::collections::HashMap;
use vstd::prelude::*;

use crate::user_data::UserData;
use crate::user_data::UserId;
use crate::user_data::UserMutableData;

verus! {

broadcast use vstd::std_specs::hash::group_hash_axioms;

/// One user badge: immutable identity data plus mutable compliance data.
#[derive(Clone, Copy, Debug, PartialEq, Eq, Structural)]
pub struct UserRecord {
    pub data: UserData,
    pub mutable: UserMutableData,
}

/// All live user badges, keyed by user id.
pub struct UserRegistry {
    users: HashMap<u64, UserRecord>,
}

impl View for UserRegistry {
    type V = Map<u64, UserRecord>;

    closed spec fn view(&self) -> Map<u64, UserRecord> {
        self.users@
    }
}

impl UserRegistry {
    pub fn new() -> (r: UserRegistry)
        ensures
            r@ == Map::<u64, UserRecord>::empty(),
    {
        UserRegistry { users: HashMap::new() }
    }

    pub fn contains(&self, user_id: UserId) -> (r: bool)
        ensures
            r == self@.contains_key(user_id.0),
    {
        self.users.contains_key(&user_id.0)
    }

    pub fn get(&self, user_id: UserId) -> (r: Option<UserRecord>)
        ensures
            match r {
                Some(record) => self@.contains_key(user_id.0) && record == self@[user_id.0],
                None => !self@.contains_key(user_id.0),
            },
    {
        match self.users.get(&user_id.0) {
            Some(record) => Some(*record),
            None => None,
        }
    }

    /// Mint a badge record. A record for the same user id must not exist:
    /// callers reject duplicates first.
    pub fn insert(&mut self, record: UserRecord)
        requires
            !old(self)@.contains_key(record.data.user_id.0),
        ensures
            final(self)@ == old(self)@.insert(record.data.user_id.0, record),
    {
        self.users.insert(record.data.user_id.0, record);
    }

    /// Rewrite the mutable part of an existing record, preserving the
    /// immutable identity data.
    pub fn set_mutable(&mut self, user_id: UserId, mutable: UserMutableData)
        requires
            old(self)@.contains_key(user_id.0),
        ensures
            final(self)@ == old(self)@.insert(
                user_id.0,
                (UserRecord { data: old(self)@[user_id.0].data, mutable }),
            ),
    {
        let record = match self.users.get(&user_id.0) {
            Some(record) => *record,
            None => unreached(),
        };
        self.users.insert(user_id.0, UserRecord { data: record.data, mutable });
    }
}

} // verus!
