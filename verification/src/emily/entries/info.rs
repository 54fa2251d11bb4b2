//! The entries of the secondary indices of the deposit table, and the
//! names of the table and its indices.

use super::deposit::DepositEntryKey;
use crate::emily::api::{DepositInfo, DepositStatus};
use vstd::prelude::*;
use vstd::std_specs::convert::FromSpecImpl;

verus! {

/// Key of the index of deposits by status.
#[derive(Clone, Copy, Debug, PartialEq, Eq, Structural, Hash)]
pub struct DepositInfoEntryKey {
    /// The deposit's status.
    pub status: DepositStatus,
    /// Stacks block height of the deposit's last update.
    pub last_update_height: u64,
}

impl DepositInfoEntryKey {
    /// The name of the table field that holds the partition key.
    pub fn partition_key_name() -> (r: &'static str)
        ensures
            r@ == "OpStatus"@,
    {
        "OpStatus"
    }

    /// The name of the table field that holds the sort key.
    pub fn sort_key_name() -> (r: &'static str)
        ensures
            r@ == "LastUpdateHeight"@,
    {
        "LastUpdateHeight"
    }
}

/// Where a listing by status stopped: the keys of the last entry it gave.
#[derive(Debug)]
pub struct DepositInfoEntrySearchToken {
    /// Key in the deposit table.
    pub primary_index_key: DepositEntryKey,
    /// Key in the index.
    pub secondary_index_key: DepositInfoEntryKey,
}

/// What the index of deposits by status holds of a deposit.
#[derive(Debug)]
pub struct DepositInfoEntry {
    /// Key in the index.
    pub key: DepositInfoEntryKey,
    /// Key in the deposit table.
    pub primary_index_key: DepositEntryKey,
    /// Stacks address that receives the sBTC, in hex.
    pub recipient: String,
    /// Amount deposited, in satoshis.
    pub amount: u64,
    /// The reclaim script, in hex.
    pub reclaim_script: String,
    /// The deposit script, in hex.
    pub deposit_script: String,
    /// Stacks block hash of the deposit's last update.
    pub last_update_block_hash: String,
}

impl DepositInfoEntry {
    /// The entry's key in the index.
    pub fn key(&self) -> (r: DepositInfoEntryKey)
        ensures
            r == self.key,
    {
        DepositInfoEntryKey {
            status: self.key.status,
            last_update_height: self.key.last_update_height,
        }
    }
}

impl From<DepositInfoEntry> for DepositInfo {
    fn from(deposit_info_entry: DepositInfoEntry) -> (r: Self) {
        DepositInfo {
            bitcoin_txid: deposit_info_entry.primary_index_key.bitcoin_txid,
            bitcoin_tx_output_index: deposit_info_entry.primary_index_key.bitcoin_tx_output_index,
            recipient: deposit_info_entry.recipient,
            amount: deposit_info_entry.amount,
            last_update_height: deposit_info_entry.key.last_update_height,
            last_update_block_hash: deposit_info_entry.last_update_block_hash,
            status: deposit_info_entry.key.status,
            reclaim_script: deposit_info_entry.reclaim_script,
            deposit_script: deposit_info_entry.deposit_script,
        }
    }
}

impl FromSpecImpl<DepositInfoEntry> for DepositInfo {
    open spec fn obeys_from_spec() -> bool {
        true
    }

    open spec fn from_spec(v: DepositInfoEntry) -> Self {
        DepositInfo {
            bitcoin_txid: v.primary_index_key.bitcoin_txid,
            bitcoin_tx_output_index: v.primary_index_key.bitcoin_tx_output_index,
            recipient: v.recipient,
            amount: v.amount,
            last_update_height: v.key.last_update_height,
            last_update_block_hash: v.last_update_block_hash,
            status: v.key.status,
            reclaim_script: v.reclaim_script,
            deposit_script: v.deposit_script,
        }
    }
}

/// Key of the index of deposits by recipient.
#[derive(Debug)]
pub struct DepositInfoByRecipientEntryKey {
    /// Stacks address that receives the sBTC, in hex.
    pub recipient: String,
    /// Stacks block height of the deposit's last update.
    pub last_update_height: u64,
}

impl DepositInfoByRecipientEntryKey {
    /// The name of the table field that holds the partition key.
    pub fn partition_key_name() -> (r: &'static str)
        ensures
            r@ == "Recipient"@,
    {
        "Recipient"
    }

    /// The name of the table field that holds the sort key.
    pub fn sort_key_name() -> (r: &'static str)
        ensures
            r@ == "LastUpdateHeight"@,
    {
        "LastUpdateHeight"
    }
}

/// Where a listing by recipient stopped: the keys of the last entry it gave.
#[derive(Debug)]
pub struct DepositInfoByRecipientEntrySearchToken {
    /// Key in the deposit table.
    pub primary_index_key: DepositEntryKey,
    /// Key in the index.
    pub secondary_index_key: DepositInfoByRecipientEntryKey,
}

/// What the index of deposits by recipient holds of a deposit.
#[derive(Debug)]
pub struct DepositInfoByRecipientEntry {
    /// Key in the index.
    pub key: DepositInfoByRecipientEntryKey,
    /// Key in the deposit table.
    pub primary_index_key: DepositEntryKey,
    /// The deposit's status.
    pub status: DepositStatus,
    /// Amount deposited, in satoshis.
    pub amount: u64,
    /// The reclaim script, in hex.
    pub reclaim_script: String,
    /// The deposit script, in hex.
    pub deposit_script: String,
    /// Stacks block hash of the deposit's last update.
    pub last_update_block_hash: String,
}

impl DepositInfoByRecipientEntry {
    /// The entry's key in the index.
    pub fn key(&self) -> (r: DepositInfoByRecipientEntryKey)
        ensures
            r.recipient@ == self.key.recipient@,
            r.last_update_height == self.key.last_update_height,
    {
        DepositInfoByRecipientEntryKey {
            recipient: self.key.recipient.clone(),
            last_update_height: self.key.last_update_height,
        }
    }
}

impl From<DepositInfoByRecipientEntry> for DepositInfo {
    fn from(deposit_info_entry: DepositInfoByRecipientEntry) -> (r: Self) {
        DepositInfo {
            bitcoin_txid: deposit_info_entry.primary_index_key.bitcoin_txid,
            bitcoin_tx_output_index: deposit_info_entry.primary_index_key.bitcoin_tx_output_index,
            recipient: deposit_info_entry.key.recipient,
            amount: deposit_info_entry.amount,
            last_update_height: deposit_info_entry.key.last_update_height,
            last_update_block_hash: deposit_info_entry.last_update_block_hash,
            status: deposit_info_entry.status,
            reclaim_script: deposit_info_entry.reclaim_script,
            deposit_script: deposit_info_entry.deposit_script,
        }
    }
}

impl FromSpecImpl<DepositInfoByRecipientEntry> for DepositInfo {
    open spec fn obeys_from_spec() -> bool {
        true
    }

    open spec fn from_spec(v: DepositInfoByRecipientEntry) -> Self {
        DepositInfo {
            bitcoin_txid: v.primary_index_key.bitcoin_txid,
            bitcoin_tx_output_index: v.primary_index_key.bitcoin_tx_output_index,
            recipient: v.key.recipient,
            amount: v.amount,
            last_update_height: v.key.last_update_height,
            last_update_block_hash: v.last_update_block_hash,
            status: v.status,
            reclaim_script: v.reclaim_script,
            deposit_script: v.deposit_script,
        }
    }
}

/// Key of the index of deposits by the public keys of their reclaim script.
#[derive(Debug)]
pub struct DepositInfoByReclaimPubkeysEntryKey {
    /// Hash of the public keys of the reclaim script.
    pub reclaim_pubkeys_hash: String,
    /// Stacks block height of the deposit's last update.
    pub last_update_height: u64,
}

impl DepositInfoByReclaimPubkeysEntryKey {
    /// The name of the table field that holds the partition key.
    pub fn partition_key_name() -> (r: &'static str)
        ensures
            r@ == "ReclaimPubkeysHash"@,
    {
        "ReclaimPubkeysHash"
    }

    /// The name of the table field that holds the sort key.
    pub fn sort_key_name() -> (r: &'static str)
        ensures
            r@ == "LastUpdateHeight"@,
    {
        "LastUpdateHeight"
    }
}

/// Where a listing by reclaim public keys stopped: the keys of the last
/// entry it gave.
#[derive(Debug)]
pub struct DepositInfoByReclaimPubkeysEntrySearchToken {
    /// Key in the deposit table.
    pub primary_index_key: DepositEntryKey,
    /// Key in the index.
    pub secondary_index_key: DepositInfoByReclaimPubkeysEntryKey,
}

/// What the index of deposits by reclaim public keys holds of a deposit.
#[derive(Debug)]
pub struct DepositInfoByReclaimPubkeysEntry {
    /// Key in the index.
    pub key: DepositInfoByReclaimPubkeysEntryKey,
    /// Key in the deposit table.
    pub primary_index_key: DepositEntryKey,
    /// The deposit's status.
    pub status: DepositStatus,
    /// Stacks address that receives the sBTC, in hex.
    pub recipient: String,
    /// Amount deposited, in satoshis.
    pub amount: u64,
    /// The reclaim script, in hex.
    pub reclaim_script: String,
    /// The deposit script, in hex.
    pub deposit_script: String,
    /// Stacks block hash of the deposit's last update.
    pub last_update_block_hash: String,
}

impl DepositInfoByReclaimPubkeysEntry {
    /// The entry's key in the index.
    pub fn key(&self) -> (r: DepositInfoByReclaimPubkeysEntryKey)
        ensures
            r.reclaim_pubkeys_hash@ == self.key.reclaim_pubkeys_hash@,
            r.last_update_height == self.key.last_update_height,
    {
        DepositInfoByReclaimPubkeysEntryKey {
            reclaim_pubkeys_hash: self.key.reclaim_pubkeys_hash.clone(),
            last_update_height: self.key.last_update_height,
        }
    }
}

impl From<DepositInfoByReclaimPubkeysEntry> for DepositInfo {
    fn from(deposit_info_entry: DepositInfoByReclaimPubkeysEntry) -> (r: Self) {
        DepositInfo {
            bitcoin_txid: deposit_info_entry.primary_index_key.bitcoin_txid,
            bitcoin_tx_output_index: deposit_info_entry.primary_index_key.bitcoin_tx_output_index,
            recipient: deposit_info_entry.recipient,
            amount: deposit_info_entry.amount,
            last_update_height: deposit_info_entry.key.last_update_height,
            last_update_block_hash: deposit_info_entry.last_update_block_hash,
            status: deposit_info_entry.status,
            reclaim_script: deposit_info_entry.reclaim_script,
            deposit_script: deposit_info_entry.deposit_script,
        }
    }
}

impl FromSpecImpl<DepositInfoByReclaimPubkeysEntry> for DepositInfo {
    open spec fn obeys_from_spec() -> bool {
        true
    }

    open spec fn from_spec(v: DepositInfoByReclaimPubkeysEntry) -> Self {
        DepositInfo {
            bitcoin_txid: v.primary_index_key.bitcoin_txid,
            bitcoin_tx_output_index: v.primary_index_key.bitcoin_tx_output_index,
            recipient: v.recipient,
            amount: v.amount,
            last_update_height: v.key.last_update_height,
            last_update_block_hash: v.last_update_block_hash,
            status: v.status,
            reclaim_script: v.reclaim_script,
            deposit_script: v.deposit_script,
        }
    }
}

/// The names of the ledger's tables.
#[derive(Debug)]
pub struct Settings {
    /// Name of the deposit table.
    pub deposit_table_name: String,
}

/// The deposit table itself, keyed by outpoint.
#[derive(Clone, Copy, Debug)]
pub struct DepositTablePrimaryIndexInner;

impl DepositTablePrimaryIndexInner {
    /// The table's name under `settings`.
    pub fn table_name(settings: &Settings) -> (r: &str)
        ensures
            r@ == settings.deposit_table_name@,
    {
        settings.deposit_table_name.as_str()
    }
}

/// The index of deposits by status.
#[derive(Clone, Copy, Debug)]
pub struct DepositTableSecondaryIndexInner;

impl DepositTableSecondaryIndexInner {
    /// The index's name.
    pub fn index_name() -> (r: &'static str)
        ensures
            r@ == "DepositStatus"@,
    {
        "DepositStatus"
    }
}

/// The index of deposits by recipient.
#[derive(Clone, Copy, Debug)]
pub struct DepositTableByRecipientSecondaryIndexInner;

impl DepositTableByRecipientSecondaryIndexInner {
    /// The index's name.
    pub fn index_name() -> (r: &'static str)
        ensures
            r@ == "DepositRecipient"@,
    {
        "DepositRecipient"
    }
}

/// The index of deposits by the public keys of their reclaim script.
#[derive(Clone, Copy, Debug)]
pub struct DepositTableByReclaimPubkeysSecondaryIndexInner;

impl DepositTableByReclaimPubkeysSecondaryIndexInner {
    /// The index's name.
    pub fn index_name() -> (r: &'static str)
        ensures
            r@ == "DepositReclaimPubkeysHashIndex"@,
    {
        "DepositReclaimPubkeysHashIndex"
    }
}

} // verus!
