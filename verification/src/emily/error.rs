//! What can go wrong in the deposit ledger.

use super::entries::{DepositEntryKey, DepositEntryKeyView};
use vstd::prelude::*;

verus! {

/// Why a deposit entry is not valid.
#[derive(Clone, Copy, Debug, PartialEq, Eq, Structural, Hash)]
pub enum EntryFault {
    /// The entry's history holds no event.
    NoEvents,
    /// The entry's block hash is not that of its latest event.
    BlockHash,
    /// The entry's block height is not that of its latest event.
    BlockHeight,
    /// The entry's status is not that of its latest event.
    Status,
}

impl EntryFault {
    /// The fault in words.
    pub fn message(&self) -> (r: &'static str)
        ensures
            r@ == self.message_text(),
    {
        match self {
            EntryFault::NoEvents => "Deposit entry must always have at least one event but did not",
            EntryFault::BlockHash => "last update block hash is inconsistent between history and top level data",
            EntryFault::BlockHeight => "last update block height is inconsistent between history and top level data",
            EntryFault::Status => "most recent status is inconsistent between history and top level data",
        }
    }

    /// The text of [`EntryFault::message`].
    pub open spec fn message_text(&self) -> Seq<char> {
        match self {
            EntryFault::NoEvents => "Deposit entry must always have at least one event but did not"@,
            EntryFault::BlockHash => "last update block hash is inconsistent between history and top level data"@,
            EntryFault::BlockHeight => "last update block height is inconsistent between history and top level data"@,
            EntryFault::Status => "most recent status is inconsistent between history and top level data"@,
        }
    }
}

/// A way in which an update contradicts what the ledger holds.
#[derive(Clone, Copy, Debug, PartialEq, Eq, Structural, Hash)]
pub enum Inconsistency {
    /// The update is older than the entry's latest event.
    EarlierHeight,
    /// The update is as old as the entry's latest event, on another block.
    ConflictingHash,
}

impl Inconsistency {
    /// The inconsistency in words.
    pub fn message(&self) -> (r: &'static str)
        ensures
            r@ == self.message_text(),
    {
        match self {
            Inconsistency::EarlierHeight => "Attempting to update a deposit with a block height earlier than it should be",
            Inconsistency::ConflictingHash => "Attempting to update a deposit with a block height and hash that conflicts with its current history",
        }
    }

    /// The text of [`Inconsistency::message`].
    pub open spec fn message_text(&self) -> Seq<char> {
        match self {
            Inconsistency::EarlierHeight => "Attempting to update a deposit with a block height earlier than it should be"@,
            Inconsistency::ConflictingHash => "Attempting to update a deposit with a block height and hash that conflicts with its current history"@,
        }
    }
}

/// An error of the deposit ledger.
#[derive(Debug)]
pub enum Error {
    /// A deposit entry contradicts its own history.
    InvalidDepositEntry(EntryFault, DepositEntryKey),
    /// An update contradicts the entry that it is meant for.
    InconsistentState(Inconsistency),
    /// An update names another deposit than the entry it was paired with:
    /// first the entry's key, then the update's.
    DepositOutputMismatch(DepositEntryKey, DepositEntryKey),
}

/// Mathematical value of an [`Error`].
pub ghost enum ErrorView {
    InvalidDepositEntry(EntryFault, DepositEntryKeyView),
    InconsistentState(Inconsistency),
    DepositOutputMismatch(DepositEntryKeyView, DepositEntryKeyView),
}

impl View for Error {
    type V = ErrorView;

    open spec fn view(&self) -> ErrorView {
        match self {
            Error::InvalidDepositEntry(fault, key) => ErrorView::InvalidDepositEntry(*fault, key@),
            Error::InconsistentState(fault) => ErrorView::InconsistentState(*fault),
            Error::DepositOutputMismatch(entry, update) => ErrorView::DepositOutputMismatch(
                entry@,
                update@,
            ),
        }
    }
}

/// Why a requested deposit update was refused before it reached the table.
#[derive(Debug)]
pub enum ValidationError {
    /// The update confirms the deposit and names no fulfillment.
    DepositMissingFulfillment(String, u32),
    /// The update marks the deposit as replaced and names no replacement.
    DepositMissingReplacementTx(String, u32),
}

} // verus!
