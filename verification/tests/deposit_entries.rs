use sbtc_bridge::emily::api::{Chainstate, Deposit, DepositInfo, DepositStatus, Fulfillment};
use sbtc_bridge::emily::entries::{
    DepositEntry, DepositEntryKey, DepositEvent, DepositInfoByRecipientEntry,
    DepositInfoByRecipientEntryKey, DepositInfoEntry, DepositInfoEntryKey,
    DepositParametersEntry, DepositStatusEntry, DepositTablePrimaryIndexInner,
    DepositTableSecondaryIndexInner, DepositUpdatePackage, Settings, ValidatedDepositUpdate,
};
use sbtc_bridge::emily::error::{EntryFault, Error, Inconsistency};

fn event(status: DepositStatusEntry, message: &str, height: u64, hash: &str) -> DepositEvent {
    DepositEvent {
        status,
        message: message.to_string(),
        stacks_block_height: height,
        stacks_block_hash: hash.to_string(),
    }
}

fn entry_with(history: Vec<DepositEvent>) -> DepositEntry {
    DepositEntry {
        key: Default::default(),
        version: 0,
        recipient: "".to_string(),
        amount: 0,
        parameters: Default::default(),
        status: DepositStatus::Pending,
        reclaim_script: "".to_string(),
        deposit_script: "".to_string(),
        last_update_height: 0,
        last_update_block_hash: "".to_string(),
        fulfillment: None,
        history,
        reclaim_pubkeys_hash: None,
        replaced_by_tx: None,
    }
}

#[test]
fn deposit_update_should_be_unnecessary_when_event_is_present() {
    let pending = DepositEvent {
        status: DepositStatusEntry::Pending,
        message: "".to_string(),
        stacks_block_height: 0,
        stacks_block_hash: "".to_string(),
    };

    let accepted = DepositEvent {
        status: DepositStatusEntry::Accepted,
        message: "".to_string(),
        stacks_block_height: 1,
        stacks_block_hash: "".to_string(),
    };

    let deposit = DepositEntry {
        key: Default::default(),
        version: 0,
        recipient: "".to_string(),
        amount: 0,
        parameters: Default::default(),
        status: DepositStatus::Pending,
        reclaim_script: "".to_string(),
        deposit_script: "".to_string(),
        last_update_height: 0,
        last_update_block_hash: "".to_string(),
        fulfillment: None,
        history: vec![pending, accepted.clone()],
        reclaim_pubkeys_hash: None,
        replaced_by_tx: None,
    };

    let update = ValidatedDepositUpdate {
        key: Default::default(),
        event: accepted,
    };

    assert!(update.is_unnecessary(&deposit));
}

#[test]
fn deposit_update_should_be_necessary_when_event_is_not_present() {
    let pending = DepositEvent {
        status: DepositStatusEntry::Pending,
        message: "".to_string(),
        stacks_block_height: 0,
        stacks_block_hash: "".to_string(),
    };

    let accepted = DepositEvent {
        status: DepositStatusEntry::Accepted,
        message: "".to_string(),
        stacks_block_height: 1,
        stacks_block_hash: "".to_string(),
    };

    let deposit = DepositEntry {
        key: Default::default(),
        version: 0,
        recipient: "".to_string(),
        amount: 0,
        parameters: Default::default(),
        status: DepositStatus::Pending,
        reclaim_script: "".to_string(),
        deposit_script: "".to_string(),
        last_update_height: 0,
        last_update_block_hash: "".to_string(),
        fulfillment: None,
        history: vec![pending.clone()],
        reclaim_pubkeys_hash: None,
        replaced_by_tx: None,
    };

    let update = ValidatedDepositUpdate {
        key: Default::default(),
        event: accepted,
    };

    assert!(!update.is_unnecessary(&deposit));
}

#[test]
fn deposit_update_is_necessary_when_an_older_event_follows_it() {
    let first = event(DepositStatusEntry::Accepted, "", 5, "h5");
    let older = event(DepositStatusEntry::Pending, "", 3, "h3");
    let deposit = entry_with(vec![first.clone(), older]);
    let update = ValidatedDepositUpdate { key: Default::default(), event: first };
    assert!(!update.is_unnecessary(&deposit));
}

#[test]
fn deposit_update_is_unnecessary_when_only_later_events_follow_it() {
    let first = event(DepositStatusEntry::Pending, "", 3, "h3");
    let later = event(DepositStatusEntry::Accepted, "", 5, "h5");
    let deposit = entry_with(vec![first.clone(), later]);
    let update = ValidatedDepositUpdate { key: Default::default(), event: first };
    assert!(update.is_unnecessary(&deposit));
    let empty = entry_with(vec![]);
    assert!(!update.is_unnecessary(&empty));
}

fn reorganized_deposit(reorg_height: u64, reorg_hash: &str) -> DepositEntry {
    let pending = event(DepositStatusEntry::Pending, "initial test pending", 2, "hash2");
    let accepted = event(DepositStatusEntry::Accepted, "accepted", 4, "hash4");
    let fulfillment: Fulfillment = Default::default();
    let confirmed = event(
        DepositStatusEntry::Confirmed(fulfillment.clone()),
        "confirmed",
        6,
        "hash6",
    );

    let mut deposit = DepositEntry {
        key: Default::default(),
        version: 3,
        recipient: "test-recipient".to_string(),
        amount: 100,
        parameters: Default::default(),
        status: confirmed.status.status(),
        reclaim_script: "test-reclaim".to_string(),
        deposit_script: "test-deposit".to_string(),
        last_update_height: 6,
        last_update_block_hash: "hash6".to_string(),
        fulfillment: Some(fulfillment.clone()),
        history: vec![pending.clone(), accepted.clone(), confirmed.clone()],
        reclaim_pubkeys_hash: Some("01".repeat(32)),
        replaced_by_tx: None,
    };

    assert!(
        deposit.validate().is_ok(),
        "Test deposit must be valid before reorg.",
    );

    let chainstate = Chainstate {
        stacks_block_height: reorg_height,
        stacks_block_hash: reorg_hash.to_string(),
        bitcoin_block_height: Some(0),
    };
    deposit.reorganize_around(&chainstate).unwrap();

    assert!(
        deposit.validate().is_ok(),
        "Deposit must be valid after reorg.",
    );
    deposit
}

fn check_reorganized(
    reorg_height: u64,
    reorg_hash: &str,
    expected_height: u64,
    expected_hash: &str,
    expected_status: DepositStatusEntry,
) {
    let deposit = reorganized_deposit(reorg_height, reorg_hash);
    assert_eq!(deposit.last_update_height, expected_height);
    assert_eq!(deposit.last_update_block_hash, expected_hash);
    assert_eq!(deposit.status, expected_status.status());

    let latest_event = deposit
        .latest_event()
        .expect("must have latest event")
        .clone();
    assert_eq!(latest_event.stacks_block_height, expected_height);
    assert_eq!(latest_event.stacks_block_hash, expected_hash);
    assert_eq!(latest_event.status, expected_status);
}

#[test]
fn reorg_around_genesis_sets_status_to_pending_at_genesis() {
    check_reorganized(0, "hash0", 0, "hash0", DepositStatusEntry::Pending);
    let deposit = reorganized_deposit(0, "hash0");
    assert_eq!(deposit.history.len(), 1);
    assert_eq!(
        deposit.history[0].message,
        "Reprocessing deposit status after reorg."
    );
    assert_eq!(deposit.fulfillment, None);
}

#[test]
fn reorg_goes_to_earliest_canonical_event_1() {
    check_reorganized(5, "hash5", 4, "hash4", DepositStatusEntry::Accepted);
}

#[test]
fn reorg_setting_a_height_consistent_with_an_event_keeps_it() {
    check_reorganized(4, "hash4", 4, "hash4", DepositStatusEntry::Accepted);
}

#[test]
fn reorg_setting_a_height_inconsistent_with_an_event_removes_it() {
    check_reorganized(4, "hash4-1", 2, "hash2", DepositStatusEntry::Pending);
}

#[test]
fn reorg_goes_to_earliest_canonical_event_2() {
    check_reorganized(3, "hash3", 2, "hash2", DepositStatusEntry::Pending);
}

#[test]
fn reorg_beyond_the_history_keeps_it_all() {
    let deposit = reorganized_deposit(7, "hash7");
    assert_eq!(deposit.history.len(), 3);
    assert_eq!(deposit.status, DepositStatus::Confirmed);
    assert_eq!(deposit.fulfillment, Some(Fulfillment::default()));
    assert_eq!(deposit.version, 3);
}

#[test]
fn reorganizing_twice_changes_nothing_more() {
    let mut deposit = reorganized_deposit(5, "hash5");
    let chainstate = Chainstate {
        stacks_block_height: 5,
        stacks_block_hash: "hash5".to_string(),
        bitcoin_block_height: None,
    };
    let before = deposit.history.clone();
    deposit.reorganize_around(&chainstate).unwrap();
    assert_eq!(deposit.history, before);
    assert_eq!(deposit.last_update_height, 4);
}

#[test]
fn validate_names_each_fault() {
    let key = DepositEntryKey { bitcoin_txid: "tx".to_string(), bitcoin_tx_output_index: 7 };
    let mut deposit = entry_with(vec![]);
    deposit.key = key.clone();
    match deposit.validate() {
        Err(Error::InvalidDepositEntry(EntryFault::NoEvents, k)) => assert_eq!(k, key),
        other => panic!("unexpected {:?}", other),
    }
    assert!(matches!(
        deposit.latest_event(),
        Err(Error::InvalidDepositEntry(EntryFault::NoEvents, _))
    ));

    deposit.history = vec![event(DepositStatusEntry::Accepted, "m", 4, "h4")];
    assert!(matches!(
        deposit.validate(),
        Err(Error::InvalidDepositEntry(EntryFault::BlockHash, _))
    ));
    deposit.last_update_block_hash = "h4".to_string();
    assert!(matches!(
        deposit.validate(),
        Err(Error::InvalidDepositEntry(EntryFault::BlockHeight, _))
    ));
    deposit.last_update_height = 4;
    assert!(matches!(
        deposit.validate(),
        Err(Error::InvalidDepositEntry(EntryFault::Status, _))
    ));
    deposit.status = DepositStatus::Accepted;
    assert!(deposit.validate().is_ok());
    assert_eq!(
        EntryFault::Status.message(),
        "most recent status is inconsistent between history and top level data"
    );
}

#[test]
fn synchronize_takes_the_latest_event() {
    let mut deposit = entry_with(vec![
        event(DepositStatusEntry::Pending, "p", 1, "h1"),
        event(DepositStatusEntry::Rbf("other-tx".to_string()), "r", 9, "h9"),
    ]);
    deposit.fulfillment = Some(Fulfillment::default());
    assert!(deposit.synchronize_with_history().is_ok());
    assert_eq!(deposit.status, DepositStatus::Rbf);
    assert_eq!(deposit.last_update_height, 9);
    assert_eq!(deposit.last_update_block_hash, "h9");
    assert_eq!(deposit.fulfillment, None);
    assert_eq!(deposit.replaced_by_tx, Some("other-tx".to_string()));
    assert!(deposit.validate().is_ok());

    let mut empty = entry_with(vec![]);
    empty.last_update_height = 3;
    assert!(matches!(
        empty.synchronize_with_history(),
        Err(Error::InvalidDepositEntry(EntryFault::NoEvents, _))
    ));
    assert_eq!(empty.last_update_height, 3);
}

#[test]
fn following_event_must_not_go_back() {
    let at5 = event(DepositStatusEntry::Pending, "", 5, "h5");
    let at4 = event(DepositStatusEntry::Accepted, "", 4, "h4");
    let at5_other = event(DepositStatusEntry::Accepted, "", 5, "h5-other");
    let at5_same = event(DepositStatusEntry::Accepted, "", 5, "h5");
    let at6 = event(DepositStatusEntry::Accepted, "", 6, "h6");
    assert!(matches!(
        at5.ensure_following_event_is_valid(&at4),
        Err(Error::InconsistentState(Inconsistency::EarlierHeight))
    ));
    assert!(matches!(
        at5.ensure_following_event_is_valid(&at5_other),
        Err(Error::InconsistentState(Inconsistency::ConflictingHash))
    ));
    assert!(at5.ensure_following_event_is_valid(&at5_same).is_ok());
    assert!(at5.ensure_following_event_is_valid(&at6).is_ok());
    assert_eq!(
        Inconsistency::EarlierHeight.message(),
        "Attempting to update a deposit with a block height earlier than it should be"
    );
}

#[test]
fn update_package_checks_key_history_and_order() {
    let key = DepositEntryKey { bitcoin_txid: "tx".to_string(), bitcoin_tx_output_index: 1 };
    let other = DepositEntryKey { bitcoin_txid: "tx".to_string(), bitcoin_tx_output_index: 2 };
    let mut deposit = entry_with(vec![event(DepositStatusEntry::Pending, "", 5, "h5")]);
    deposit.key = key.clone();
    deposit.version = 11;

    let wrong_key = ValidatedDepositUpdate {
        key: other.clone(),
        event: event(DepositStatusEntry::Accepted, "", 6, "h6"),
    };
    match DepositUpdatePackage::try_from(&deposit, wrong_key) {
        Err(Error::DepositOutputMismatch(a, b)) => {
            assert_eq!(a, key);
            assert_eq!(b, other);
        }
        other => panic!("unexpected {:?}", other),
    }

    let too_old = ValidatedDepositUpdate {
        key: key.clone(),
        event: event(DepositStatusEntry::Accepted, "", 4, "h4"),
    };
    assert!(matches!(
        DepositUpdatePackage::try_from(&deposit, too_old),
        Err(Error::InconsistentState(Inconsistency::EarlierHeight))
    ));

    let good = ValidatedDepositUpdate {
        key: key.clone(),
        event: event(DepositStatusEntry::Accepted, "ok", 6, "h6"),
    };
    let package = DepositUpdatePackage::try_from(&deposit, good).unwrap();
    assert_eq!(package.key, key);
    assert_eq!(package.version, 11);
    assert_eq!(package.event, event(DepositStatusEntry::Accepted, "ok", 6, "h6"));

    let empty = entry_with(vec![]);
    let update = ValidatedDepositUpdate {
        key: Default::default(),
        event: event(DepositStatusEntry::Accepted, "", 6, "h6"),
    };
    assert!(matches!(
        DepositUpdatePackage::try_from(&empty, update),
        Err(Error::InvalidDepositEntry(EntryFault::NoEvents, _))
    ));
}

#[test]
fn deposit_resource_comes_from_a_valid_entry() {
    let fulfillment = Fulfillment {
        bitcoin_block_hash: "bitcoin_block_hash".to_string(),
        bitcoin_block_height: 23,
        bitcoin_tx_index: 45,
        bitcoin_txid: "test_fulfillment_bitcoin_txid".to_string(),
        btc_fee: 2314,
        stacks_txid: "test_fulfillment_stacks_txid".to_string(),
    };
    let mut entry = entry_with(vec![
        event(DepositStatusEntry::Pending, "p", 1, "h1"),
        event(DepositStatusEntry::Confirmed(fulfillment.clone()), "done", 42, "h42"),
    ]);
    entry.key = DepositEntryKey { bitcoin_txid: "abc".to_string(), bitcoin_tx_output_index: 3 };
    entry.amount = 1000;
    entry.parameters = DepositParametersEntry { max_fee: 77, lock_time: 14 };
    entry.recipient = "rcpt".to_string();
    assert!(matches!(
        Deposit::try_from(entry_with(vec![])),
        Err(Error::InvalidDepositEntry(EntryFault::NoEvents, _))
    ));
    entry.synchronize_with_history().unwrap();
    let deposit = Deposit::try_from(entry).unwrap();
    assert_eq!(deposit.bitcoin_txid, "abc");
    assert_eq!(deposit.bitcoin_tx_output_index, 3);
    assert_eq!(deposit.amount, 1000);
    assert_eq!(deposit.recipient, "rcpt");
    assert_eq!(deposit.status, DepositStatus::Confirmed);
    assert_eq!(deposit.status_message, "done");
    assert_eq!(deposit.last_update_height, 42);
    assert_eq!(deposit.last_update_block_hash, "h42");
    assert_eq!(deposit.parameters.max_fee, 77);
    assert_eq!(deposit.parameters.lock_time, 14);
    assert_eq!(deposit.fulfillment, Some(fulfillment));
    assert_eq!(deposit.replaced_by_tx, None);
}

#[test]
fn info_entries_convert_and_give_their_keys() {
    let entry = DepositInfoEntry {
        key: DepositInfoEntryKey { status: DepositStatus::Accepted, last_update_height: 9 },
        primary_index_key: DepositEntryKey {
            bitcoin_txid: "t".to_string(),
            bitcoin_tx_output_index: 4,
        },
        recipient: "r".to_string(),
        amount: 12,
        reclaim_script: "rs".to_string(),
        deposit_script: "ds".to_string(),
        last_update_block_hash: "h".to_string(),
    };
    assert_eq!(entry.key(), DepositInfoEntryKey { status: DepositStatus::Accepted, last_update_height: 9 });
    let info = DepositInfo::from(entry);
    assert_eq!(info.bitcoin_txid, "t");
    assert_eq!(info.bitcoin_tx_output_index, 4);
    assert_eq!(info.status, DepositStatus::Accepted);
    assert_eq!(info.last_update_height, 9);
    assert_eq!(info.amount, 12);
    assert_eq!(info.recipient, "r");

    let by_recipient = DepositInfoByRecipientEntry {
        key: DepositInfoByRecipientEntryKey { recipient: "who".to_string(), last_update_height: 2 },
        primary_index_key: DepositEntryKey {
            bitcoin_txid: "t2".to_string(),
            bitcoin_tx_output_index: 0,
        },
        status: DepositStatus::Failed,
        amount: 5,
        reclaim_script: "rs".to_string(),
        deposit_script: "ds".to_string(),
        last_update_block_hash: "h2".to_string(),
    };
    assert_eq!(by_recipient.key().recipient, "who");
    let info = DepositInfo::from(by_recipient);
    assert_eq!(info.recipient, "who");
    assert_eq!(info.status, DepositStatus::Failed);
    assert_eq!(info.last_update_block_hash, "h2");

    assert_eq!(DepositEntryKey::partition_key_name(), "BitcoinTxid");
    assert_eq!(DepositEntryKey::sort_key_name(), "BitcoinTxOutputIndex");
    assert_eq!(DepositInfoEntryKey::partition_key_name(), "OpStatus");
    assert_eq!(DepositInfoEntryKey::sort_key_name(), "LastUpdateHeight");
    assert_eq!(DepositInfoByRecipientEntryKey::partition_key_name(), "Recipient");
    assert_eq!(DepositEntry::version_field(), "Version");
    let settings = Settings { deposit_table_name: "DepositTable".to_string() };
    assert_eq!(DepositTablePrimaryIndexInner::table_name(&settings), "DepositTable");
    assert_eq!(DepositTableSecondaryIndexInner::index_name(), "DepositStatus");
}

#[test]
fn entries_compare_and_copy_by_value() {
    let mut entry = entry_with(vec![
        event(DepositStatusEntry::Pending, "p", 1, "h1"),
        event(DepositStatusEntry::Rbf("other".to_string()), "r", 2, "h2"),
    ]);
    entry.reclaim_pubkeys_hash = Some("abc".to_string());
    let copy = entry.clone();
    assert_eq!(copy, entry);
    let mut changed = entry.clone();
    changed.history[1].status = DepositStatusEntry::Rbf("another".to_string());
    assert_ne!(changed, entry);
    let mut changed = entry.clone();
    changed.reclaim_pubkeys_hash = None;
    assert_ne!(changed, entry);
    let mut changed = entry.clone();
    changed.history.pop();
    assert_ne!(changed, entry);
    assert_eq!(DepositEntry::default(), entry_with(vec![]));
    let update = ValidatedDepositUpdate {
        key: Default::default(),
        event: event(DepositStatusEntry::Accepted, "", 6, "h6"),
    };
    let copy = update.clone();
    assert_eq!(copy.key, update.key);
    assert_eq!(copy.event, update.event);
}

#[test]
fn key_is_written_as_txid_and_index() {
    let key = DepositEntryKey { bitcoin_txid: "abc".to_string(), bitcoin_tx_output_index: 42 };
    assert_eq!(key.to_string(), "abc:42");
    let key = DepositEntryKey { bitcoin_txid: "".to_string(), bitcoin_tx_output_index: 0 };
    assert_eq!(key.to_string(), ":0");
    let key = DepositEntryKey { bitcoin_txid: "t".to_string(), bitcoin_tx_output_index: u32::MAX };
    assert_eq!(key.to_string(), "t:4294967295");
    let key = DepositEntryKey { bitcoin_txid: "t".to_string(), bitcoin_tx_output_index: 1090 };
    assert_eq!(key.to_string(), "t:1090");
}

#[test]
fn version_counts_up() {
    let mut deposit = entry_with(vec![]);
    assert_eq!(deposit.get_version(), 0);
    deposit.increment_version();
    assert_eq!(deposit.get_version(), 1);
    assert_eq!(deposit.key(), DepositEntryKey::default());
}
