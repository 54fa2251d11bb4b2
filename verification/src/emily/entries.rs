//! Entries of the deposit table and of its secondary indices.

pub mod deposit;
pub mod info;
pub mod update;

pub use deposit::{
    decimal_string, decimal_text, digit_text, fulfillment_view, history_view, surviving,
    text_view, DepositEntry, DepositEntryKey, DepositEntryKeyView, DepositEntryView,
    DepositEvent, DepositEventView, DepositParametersEntry, DepositStatusEntry,
    DepositStatusEntryView,
};
pub use info::{
    DepositInfoByRecipientEntry, DepositInfoByRecipientEntryKey,
    DepositInfoByRecipientEntrySearchToken, DepositInfoByReclaimPubkeysEntry,
    DepositInfoByReclaimPubkeysEntryKey, DepositInfoByReclaimPubkeysEntrySearchToken,
    DepositInfoEntry, DepositInfoEntryKey, DepositInfoEntrySearchToken,
    DepositTableByRecipientSecondaryIndexInner, DepositTableByReclaimPubkeysSecondaryIndexInner,
    DepositTablePrimaryIndexInner, DepositTableSecondaryIndexInner, Settings,
};
pub use update::{
    packaged, DepositUpdatePackage, DepositUpdatePackageView, ValidatedDepositUpdate,
    ValidatedUpdateDepositsRequest,
};
