//! Updates of deposits on their way to the table.

use super::deposit::{
    DepositEntry, DepositEntryKey, DepositEntryKeyView, DepositEntryView, DepositEvent,
    DepositEventView,
};
use crate::emily::error::{EntryFault, Error, ErrorView, ValidationError};
use vstd::prelude::*;

verus! {

/// A request to update deposits, after validation.
#[derive(Debug)]
pub struct ValidatedUpdateDepositsRequest {
    /// The updates in the order in which they are to be made, oldest first,
    /// each with its place in the request as the client sent it, so that the
    /// answers can go back in the client's order.
    pub deposits: Vec<(usize, Result<ValidatedDepositUpdate, ValidationError>)>,
}

/// One validated update of a deposit.
#[derive(Debug)]
pub struct ValidatedDepositUpdate {
    /// Key of the deposit.
    pub key: DepositEntryKey,
    /// The event to add to the deposit's history.
    pub event: DepositEvent,
}

impl Clone for ValidatedDepositUpdate {
    fn clone(&self) -> (r: Self)
        ensures
            r.key@ == self.key@,
            r.event@ == self.event@,
    {
        ValidatedDepositUpdate { key: self.key.clone(), event: self.event.clone() }
    }
}

impl ValidatedDepositUpdate {
    /// Whether the update would change nothing: its event is already in the
    /// entry's history, and every event after it there is at least as
    /// high as it.
    pub fn is_unnecessary(&self, entry: &DepositEntry) -> (r: bool)
        ensures
            r == entry@.holds_event(self.event@),
    {
        let n = entry.history.len();
        let mut i: usize = n;
        while i > 0
            invariant
                i <= n,
                n == entry.history.len(),
                forall|j: int|
                    i <= j < n ==> (#[trigger] entry@.history[j]).stacks_block_height
                        >= self.event.stacks_block_height,
                forall|j: int| i <= j < n ==> #[trigger] entry@.history[j] != self.event@,
            decreases i,
        {
            i -= 1;
            let event = &entry.history[i];
            assert(event@ == entry@.history[i as int]);
            if event.stacks_block_height < self.event.stacks_block_height {
                assert(!entry@.holds_event(self.event@)) by {
                    if entry@.holds_event(self.event@) {
                        let k = choose|k: int|
                            0 <= k < entry@.history.len() && #[trigger] entry@.history[k]
                                == self.event@ && forall|j: int|
                                k <= j < entry@.history.len() ==> (
                                #[trigger] entry@.history[j]).stacks_block_height
                                    >= self.event@.stacks_block_height;
                        if k <= i {
                            assert(entry@.history[i as int].stacks_block_height
                                >= self.event@.stacks_block_height);
                        }
                    }
                }
                return false;
            }
            if *event == self.event {
                return true;
            }
        }
        false
    }
}

/// An update ready to be written: the event with the key and the version of
/// the entry that it extends.
#[derive(Debug)]
pub struct DepositUpdatePackage {
    /// Key of the deposit.
    pub key: DepositEntryKey,
    /// Version of the entry that the update was made for.
    pub version: u64,
    /// The event to add to the deposit's history.
    pub event: DepositEvent,
}

/// Mathematical value of a [`DepositUpdatePackage`].
pub ghost struct DepositUpdatePackageView {
    pub key: DepositEntryKeyView,
    pub version: u64,
    pub event: DepositEventView,
}

impl View for DepositUpdatePackage {
    type V = DepositUpdatePackageView;

    open spec fn view(&self) -> DepositUpdatePackageView {
        DepositUpdatePackageView { key: self.key@, version: self.version, event: self.event@ }
    }
}

/// What packaging an update with key `key` and event `event` for `entry`
/// gives: the package, or the first of a key that is not the entry's, an
/// entry without events, and an event that cannot follow the latest one.
pub open spec fn packaged(
    entry: DepositEntryView,
    key: DepositEntryKeyView,
    event: DepositEventView,
) -> Result<DepositUpdatePackageView, ErrorView> {
    if key != entry.key {
        Err(ErrorView::DepositOutputMismatch(entry.key, key))
    } else if entry.history.len() == 0 {
        Err(ErrorView::InvalidDepositEntry(EntryFault::NoEvents, entry.key))
    } else {
        match entry.history.last().following_fault(event) {
            Some(fault) => Err(ErrorView::InconsistentState(fault)),
            None => Ok(DepositUpdatePackageView { key: entry.key, version: entry.version, event }),
        }
    }
}

impl DepositUpdatePackage {
    /// Packages `update` for `entry`, if it is an update of that entry and
    /// its event can follow the entry's latest one.
    pub fn try_from(entry: &DepositEntry, update: ValidatedDepositUpdate) -> (r: Result<
        Self,
        Error,
    >)
        ensures
            match packaged(entry@, update.key@, update.event@) {
                Ok(package) => r matches Ok(p) && p@ == package,
                Err(error) => r matches Err(e) && e@ == error,
            },
    {
        if update.key != entry.key {
            return Err(Error::DepositOutputMismatch(entry.key.clone(), update.key));
        }
        let latest = match entry.latest_event() {
            Ok(event) => event,
            Err(e) => {
                return Err(e);
            },
        };
        match latest.ensure_following_event_is_valid(&update.event) {
            Ok(()) => {},
            Err(e) => {
                return Err(e);
            },
        }
        Ok(
            DepositUpdatePackage {
                key: entry.key.clone(),
                version: entry.version,
                event: update.event,
            },
        )
    }
}

} // verus!
