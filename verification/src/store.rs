//! The shapes in which the bot and its store talk to each other, and a model
//! of the user-progress table against which the writes are stated.
//!
//! The store itself lives outside this crate. A write is conditional: an
//! insert takes effect only while the user has no record, an update only
//! while the record is still the one that was read. A store that honours this
//! cannot lose an activity event to a concurrent one.

use crate::progress::UserProgress;
use vstd::prelude::*;

verus! {

/// The answer of the store to a lookup.
#[derive(Debug, PartialEq, Eq)]
pub enum Fetched<T> {
    /// The record exists.
    Found(T),
    /// The store answered, and holds no such record.
    Missing,
    /// The store did not answer.
    Unavailable,
}

/// A write to the user-progress table.
#[derive(Clone, Copy, Debug, PartialEq, Eq, Structural)]
pub enum StoreWrite {
    /// Create the record of `user`, unless there is one.
    Insert { user: u64, record: UserProgress },
    /// Put `record` in the place of `expected`, unless the record of `user` is
    /// no longer `expected`.
    Update { user: u64, expected: UserProgress, record: UserProgress },
}

/// The answer of the store to a write.
#[derive(Clone, Copy, Debug, PartialEq, Eq, Structural)]
pub enum WriteResult {
    /// The write took effect.
    Applied,
    /// The condition of the write did not hold; nothing was changed.
    Conflict,
    /// The store did not answer.
    Unavailable,
}

/// The user-progress table: the record of each user that has one.
pub type ProgressTable = Map<u64, UserProgress>;

/// The record of `user` in `table`, if there is one.
pub open spec fn record_of(table: ProgressTable, user: u64) -> Option<UserProgress> {
    if table.dom().contains(user) {
        Some(table[user])
    } else {
        None
    }
}

/// What a store that answers returns for a lookup of `user`.
pub open spec fn fetched_from(table: ProgressTable, user: u64) -> Fetched<UserProgress> {
    match record_of(table, user) {
        Some(record) => Fetched::Found(record),
        None => Fetched::Missing,
    }
}

impl StoreWrite {
    /// The user whose record is written.
    pub open spec fn user(self) -> u64 {
        match self {
            StoreWrite::Insert { user, .. } => user,
            StoreWrite::Update { user, .. } => user,
        }
    }

    /// The record that the write puts into the table.
    pub open spec fn record(self) -> UserProgress {
        match self {
            StoreWrite::Insert { record, .. } => record,
            StoreWrite::Update { record, .. } => record,
        }
    }

    /// Whether the condition of the write holds where `current` is what the
    /// table has for the write's user.
    pub open spec fn holds_of(self, current: Option<UserProgress>) -> bool {
        match self {
            StoreWrite::Insert { .. } => current is None,
            StoreWrite::Update { expected, .. } => current == Some(expected),
        }
    }

    /// Whether the condition of the write holds in `table`.
    pub open spec fn applies_to(self, table: ProgressTable) -> bool {
        self.holds_of(record_of(table, self.user()))
    }

    /// The table after the write was handed to a store that answers.
    pub open spec fn applied(self, table: ProgressTable) -> ProgressTable {
        if self.applies_to(table) {
            table.insert(self.user(), self.record())
        } else {
            table
        }
    }

    /// What a store that answers returns for the write.
    pub open spec fn answer(self, table: ProgressTable) -> WriteResult {
        if self.applies_to(table) {
            WriteResult::Applied
        } else {
            WriteResult::Conflict
        }
    }

    /// Decides whether the write may take effect, given what the table has
    /// for the write's user: an insert only where there is no record, an
    /// update only where the record is the expected one.
    pub fn may_apply(&self, current: Option<UserProgress>) -> (yes: bool)
        ensures
            yes == self.holds_of(current),
    {
        match self {
            StoreWrite::Insert { .. } => current.is_none(),
            StoreWrite::Update { expected, .. } => match current {
                Some(record) => record.point == expected.point && record.level == expected.level,
                None => false,
            },
        }
    }
}

} // verus!
