use sbtc_bridge::signer::chain::{headers_to_process, HeaderSource};
use sbtc_bridge::signer::classify::BitcoinTxInfo;
use sbtc_bridge::signer::deposits::{load_latest_deposit_requests, CreateDepositRequest};
use sbtc_bridge::signer::error::Error;
use sbtc_bridge::signer::model::{
    BitcoinBlockHeader, DkgSharesStatus, EncryptedDkgShares, Hash256, OutPoint, PublicKey,
    TxOutput, TxOutputType, TxPrevout, TxPrevoutType,
};
use sbtc_bridge::signer::observer::{
    process_bitcoin_block, process_chain_tip, FetchedBlock, FetchedState, SignerEvent,
};
use sbtc_bridge::signer::state::{SbtcLimits, SignerSetInfo, SignerState};
use sbtc_bridge::signer::store::Store;
use sbtc_bridge::signer::transaction::{Transaction, TxIn, TxOut};

fn hash(n: u8) -> Hash256 {
    Hash256 { bytes: [n; 32] }
}

fn block_hash(height: u64) -> Hash256 {
    let mut bytes = [0xb0; 32];
    bytes[..8].copy_from_slice(&height.to_be_bytes());
    Hash256 { bytes }
}

fn header(height: u64) -> BitcoinBlockHeader {
    BitcoinBlockHeader {
        hash: block_hash(height),
        height,
        parent_hash: block_hash(height - 1),
    }
}

fn key(n: u8) -> PublicKey {
    let mut bytes = [n; 33];
    bytes[0] = 2;
    PublicKey { bytes }
}

fn signer_script() -> Vec<u8> {
    let mut script = vec![0x51, 0x20];
    script.extend([0x11u8; 32]);
    script
}

fn other_script() -> Vec<u8> {
    vec![0x00, 0x14, 7, 7, 7]
}

fn shares(n: u8, status: DkgSharesStatus, started_at: u64) -> EncryptedDkgShares {
    EncryptedDkgShares {
        aggregate_key: key(n),
        signer_set_public_keys: vec![key(n + 1), key(n + 2)],
        signature_share_threshold: 2,
        dkg_shares_status: status,
        started_at_bitcoin_block_height: started_at,
        started_at_bitcoin_block_hash: block_hash(started_at),
        script_pubkey: signer_script(),
    }
}

fn standard_principal() -> Vec<u8> {
    let mut bytes = vec![0x05, 22];
    bytes.extend([0xaa; 20]);
    bytes
}

fn deposit_script(max_fee: u64) -> Vec<u8> {
    let mut script = vec![30];
    script.extend(max_fee.to_be_bytes());
    script.extend(standard_principal());
    script.extend([0x75, 0x20]);
    script.extend([0x11; 32]);
    script.push(0xac);
    script
}

fn input(txid: Hash256, vout: u32) -> TxIn {
    TxIn { previous_output: OutPoint { txid, vout }, script_sig: vec![], sequence: 0 }
}

fn output(value: u64, script_pubkey: Vec<u8>) -> TxOut {
    TxOut { value, script_pubkey }
}

fn tx_info(txid: Hash256, input: Vec<TxIn>, output: Vec<TxOut>, prevouts: Vec<Option<TxOut>>) -> BitcoinTxInfo {
    BitcoinTxInfo { txid, tx: Transaction { version: 2, lock_time: 0, input, output }, prevouts }
}

fn coinbase(txid: Hash256, to: Vec<u8>) -> BitcoinTxInfo {
    tx_info(
        txid,
        vec![input(Hash256 { bytes: [0; 32] }, u32::MAX)],
        vec![output(50_0000_0000, to)],
        vec![None],
    )
}

fn donation(txid: Hash256, amount: u64) -> BitcoinTxInfo {
    tx_info(
        txid,
        vec![input(hash(0xf0), 0)],
        vec![output(amount, signer_script()), output(99, other_script())],
        vec![Some(output(amount + 500, other_script()))],
    )
}

/// A transaction that makes a deposit of `amount` in its first output.
fn deposit_tx(txid: Hash256, amount: u64) -> BitcoinTxInfo {
    tx_info(
        txid,
        vec![input(hash(0xf1), 0)],
        vec![output(amount, vec![0x51, 0x20, 0xdd])],
        vec![Some(output(amount + amount / 2, other_script()))],
    )
}

fn candidate(txid: Hash256, max_fee: u64) -> CreateDepositRequest {
    CreateDepositRequest {
        outpoint: OutPoint { txid, vout: 0 },
        deposit_script: deposit_script(max_fee),
        reclaim_script: vec![0x01, 50, 0xb2],
    }
}

fn block(height: u64, transactions: Vec<BitcoinTxInfo>) -> FetchedBlock {
    let mut all = vec![coinbase(block_hash(height), other_script())];
    all.extend(transactions);
    FetchedBlock { header: header(height), transactions: all }
}

fn fetched(limits: SbtcLimits) -> FetchedState {
    FetchedState { limits, contracts_deployed: false, registry_signer_set_info: None }
}

fn fetch_output(store: &Store, kind: TxOutputType) -> Vec<&TxOutput> {
    store.tx_outputs().iter().filter(|o| o.output_type == kind).collect()
}

fn fetch_input(store: &Store, kind: TxPrevoutType) -> Vec<&TxPrevout> {
    store.tx_prevouts().iter().filter(|o| o.prevout_type == kind).collect()
}

/// The deposits that the ledger knows are taken in whenever they were
/// confirmed.
fn persists_requests_from_past(blocks_ago: u64) {
    let setup0 = deposit_tx(hash(0x20), 100_000);
    let setup1 = deposit_tx(hash(0x21), 200_000);
    // The deposits were confirmed at height 101; the chain went on since.
    let confirmed_at = 101;
    let tip = confirmed_at + blocks_ago + 1;
    let node = vec![setup0, setup1];
    let ledger = vec![candidate(hash(0x20), 10), candidate(hash(0x21), 10)];

    // The store holds nothing at all when the observer starts.
    let mut store = Store::new();
    let mut state = SignerState::new(0);
    assert!(store.get_bitcoin_canonical_chain_tip().is_none());
    assert!(store.deposit_requests().is_empty());

    let (event, errors) = process_chain_tip(
        &mut store,
        &mut state,
        10,
        &node,
        &ledger,
        &vec![block(tip, vec![])],
        fetched(SbtcLimits::unlimited()),
    );
    assert_eq!(event, SignerEvent::BitcoinBlockObserved);
    assert!(errors.is_empty());
    assert_eq!(store.get_bitcoin_canonical_chain_tip().map(|b| b.block_hash), Some(block_hash(tip)));

    let deposit_requests = store.deposit_requests();
    assert_eq!(deposit_requests.len(), 2);
    let outpoints: Vec<OutPoint> = deposit_requests.iter().map(|r| r.outpoint()).collect();
    assert!(outpoints.contains(&OutPoint { txid: hash(0x20), vout: 0 }));
    assert!(outpoints.contains(&OutPoint { txid: hash(0x21), vout: 0 }));
    assert_eq!(deposit_requests[0].amount, 100_000);
    assert_eq!(deposit_requests[1].amount, 200_000);

    // The ledger reports them again with the next tip: they are held once.
    process_chain_tip(
        &mut store,
        &mut state,
        10,
        &node,
        &ledger,
        &vec![block(tip + 1, vec![])],
        fetched(SbtcLimits::unlimited()),
    );
    assert_eq!(store.deposit_requests().len(), 2);
    assert_eq!(store.bitcoin_blocks().len(), 2);
}

#[test]
fn load_latest_deposit_requests_persists_requests_from_past_one_block_ago() {
    persists_requests_from_past(1);
}

#[test]
fn load_latest_deposit_requests_persists_requests_from_past_five_blocks_ago() {
    persists_requests_from_past(5);
}

#[test]
fn one_refused_deposit_does_not_keep_the_others_out() {
    let node = vec![deposit_tx(hash(0x20), 100_000), coinbase(hash(0x22), other_script())];
    let mut bad_script = candidate(hash(0x20), 10);
    bad_script.outpoint.vout = 0;
    bad_script.deposit_script.pop();
    let ledger = vec![
        candidate(hash(0x23), 10),
        candidate(hash(0x22), 10),
        bad_script,
        candidate(hash(0x20), 10),
        candidate(hash(0x20), 9999),
    ];
    let mut store = Store::new();
    let errors = load_latest_deposit_requests(&mut store, &node, &ledger);
    assert_eq!(errors.len(), 3);
    assert!(matches!(errors[0], Error::BitcoinTxMissing(o) if o.txid == hash(0x23)));
    assert!(matches!(errors[1], Error::BitcoinTxCoinbase(t) if t == hash(0x22)));
    assert!(matches!(errors[2], Error::InvalidDepositScript(o) if o.txid == hash(0x20)));
    assert_eq!(store.deposit_requests().len(), 1);
    assert_eq!(store.deposit_requests()[0].max_fee, 10);
}

#[test]
fn block_observer_stores_donation_and_sbtc_utxos() {
    let mut store = Store::new();
    let mut state = SignerState::new(0);
    let run = |store: &mut Store, state: &mut SignerState, node: &Vec<BitcoinTxInfo>, ledger: &Vec<CreateDepositRequest>, blocks: Vec<FetchedBlock>| {
        let (event, _) =
            process_chain_tip(store, state, 10, node, ledger, &blocks, fetched(SbtcLimits::unlimited()));
        assert_eq!(event, SignerEvent::BitcoinBlockObserved);
    };
    run(&mut store, &mut state, &vec![], &vec![], vec![block(101, vec![])]);

    // There are no rows in the output tables.
    assert!(fetch_output(&store, TxOutputType::Donation).is_empty());
    assert!(fetch_output(&store, TxOutputType::SignersOpReturn).is_empty());
    assert!(fetch_output(&store, TxOutputType::SignersOutput).is_empty());
    assert!(fetch_input(&store, TxPrevoutType::Deposit).is_empty());
    assert!(fetch_input(&store, TxPrevoutType::SignersInput).is_empty());

    // Key generation has run: the observer knows which script to look for.
    store.write_encrypted_dkg_shares(&shares(1, DkgSharesStatus::Verified, 101));

    // A donation to the signers.
    let donation_amount = 100_000;
    let donation_txid = hash(1);
    run(&mut store, &mut state, &vec![], &vec![], vec![block(102, vec![donation(donation_txid, donation_amount)])]);

    assert!(fetch_output(&store, TxOutputType::SignersOpReturn).is_empty());
    assert!(fetch_output(&store, TxOutputType::SignersOutput).is_empty());
    assert!(fetch_input(&store, TxPrevoutType::Deposit).is_empty());
    assert!(fetch_input(&store, TxPrevoutType::SignersInput).is_empty());
    let donations = fetch_output(&store, TxOutputType::Donation);
    assert_eq!(donations.len(), 1);
    assert_eq!(donations[0].amount, donation_amount);
    assert_eq!(donations[0].output_index, 0);
    assert_eq!(donations[0].txid, donation_txid);

    // The depositor gets funds, then makes a deposit, which the signers sweep.
    run(&mut store, &mut state, &vec![], &vec![], vec![block(103, vec![])]);
    let deposit_amount = 2_500_000;
    let max_fee = deposit_amount / 2;
    let deposit = deposit_tx(hash(2), deposit_amount);
    let sweep_txid = hash(3);
    let swept = donation_amount + deposit_amount - 3_000;
    let sweep = || {
        tx_info(
            sweep_txid,
            vec![input(donation_txid, 0), input(hash(2), 0)],
            vec![output(swept, signer_script()), output(0, vec![0x6a, 0x02, b'T', b'3'])],
            vec![
                Some(output(donation_amount, signer_script())),
                Some(output(deposit_amount, vec![0x51, 0x20, 0xdd])),
            ],
        )
    };
    let node = vec![deposit_tx(hash(2), deposit_amount)];
    let ledger = vec![candidate(hash(2), max_fee)];
    run(&mut store, &mut state, &node, &ledger, vec![block(104, vec![deposit, sweep()])]);
    assert_eq!(store.deposit_requests().len(), 1);
    assert_eq!(store.deposit_requests()[0].max_fee, 1_250_000);

    let signers_outputs = fetch_output(&store, TxOutputType::SignersOutput);
    assert_eq!(signers_outputs.len(), 1);
    assert_eq!(signers_outputs[0].amount, swept);
    assert_eq!(signers_outputs[0].output_index, 0);
    assert_eq!(signers_outputs[0].txid, sweep_txid);

    let op_returns = fetch_output(&store, TxOutputType::SignersOpReturn);
    assert_eq!(op_returns.len(), 1);
    assert_eq!(op_returns[0].amount, 0);
    assert_eq!(op_returns[0].output_index, 1);
    assert_eq!(op_returns[0].txid, sweep_txid);

    let signers_inputs = fetch_input(&store, TxPrevoutType::SignersInput);
    assert_eq!(signers_inputs.len(), 1);
    assert_eq!(signers_inputs[0].amount, donation_amount);
    assert_eq!(signers_inputs[0].prevout_txid, donation_txid);
    assert_eq!(signers_inputs[0].prevout_output_index, 0);
    assert_eq!(signers_inputs[0].txid, sweep_txid);

    let deposits = fetch_input(&store, TxPrevoutType::Deposit);
    assert_eq!(deposits.len(), 1);
    assert_eq!(deposits[0].amount, deposit_amount);
    assert_eq!(deposits[0].prevout_txid, hash(2));
    assert_eq!(deposits[0].txid, sweep_txid);

    assert_eq!(fetch_output(&store, TxOutputType::Donation).len(), 1);
}

#[test]
fn block_observer_ignores_coinbase() {
    let mut store = Store::new();
    let mut state = SignerState::new(0);
    store.write_encrypted_dkg_shares(&shares(1, DkgSharesStatus::Verified, 100));
    assert!(fetch_output(&store, TxOutputType::Donation).is_empty());
    assert!(fetch_input(&store, TxPrevoutType::Deposit).is_empty());

    // A block whose coinbase pays the signers, with another donation in it.
    let donation_amount = 123_456;
    let first = FetchedBlock {
        header: header(101),
        transactions: vec![coinbase(hash(0x90), signer_script()), donation(hash(1), donation_amount)],
    };
    process_chain_tip(&mut store, &mut state, 10, &vec![], &vec![], &vec![first], fetched(SbtcLimits::unlimited()));
    let donations = fetch_output(&store, TxOutputType::Donation);
    assert_eq!(donations.len(), 1);
    assert_eq!(donations[0].amount, donation_amount);
    assert_eq!(donations[0].output_index, 0);
    assert_eq!(donations[0].txid, hash(1));

    // A deposit made by a coinbase transaction, and a second donation.
    let donation_amount_2 = 123_456 + 1;
    let max_fee = 100_042;
    let coinbase_deposit = || coinbase(hash(0x91), vec![0x51, 0x20, 0xdd]);
    let second = FetchedBlock {
        header: header(102),
        transactions: vec![coinbase_deposit(), donation(hash(2), donation_amount_2)],
    };
    let node = vec![coinbase_deposit()];
    let ledger = vec![candidate(hash(0x91), max_fee)];
    let (_, errors) = process_chain_tip(
        &mut store,
        &mut state,
        10,
        &node,
        &ledger,
        &vec![second, block(103, vec![])],
        fetched(SbtcLimits::unlimited()),
    );

    let donations = fetch_output(&store, TxOutputType::Donation);
    assert_eq!(donations.len(), 2);
    assert_eq!(donations[0].amount, donation_amount);
    assert_eq!(donations[0].txid, hash(1));
    assert_eq!(donations[1].amount, donation_amount_2);
    assert_eq!(donations[1].output_index, 0);
    assert_eq!(donations[1].txid, hash(2));

    assert!(fetch_input(&store, TxPrevoutType::Deposit).is_empty());
    assert!(store.deposit_requests().is_empty());
    assert_eq!(errors.len(), 1);
    match ledger[0].validate_tx(Some(&node[0].tx)) {
        Err(Error::BitcoinTxCoinbase(tx)) if tx == hash(0x91) => {}
        _ => panic!("Expected a err, got something else"),
    }
    assert!(matches!(errors[0], Error::BitcoinTxCoinbase(tx) if tx == hash(0x91)));
}

fn handles_update_limits(deployed: bool, sbtc_limits: SbtcLimits) {
    let mut store = Store::new();
    let mut state = SignerState::new(0);
    if deployed {
        state.set_sbtc_contracts_deployed();
    }
    let (event, _) = process_chain_tip(
        &mut store,
        &mut state,
        10,
        &vec![],
        &vec![],
        &vec![block(101, vec![]), block(102, vec![])],
        fetched(sbtc_limits),
    );
    assert_eq!(event, SignerEvent::BitcoinBlockObserved);
    assert_eq!(
        store.get_bitcoin_canonical_chain_tip().map(|b| b.block_hash),
        Some(block_hash(102))
    );
    assert!(state.get_current_limits().same(&sbtc_limits));
    assert_eq!(state.sbtc_contracts_deployed(), deployed);
}

fn total_cap_limits() -> SbtcLimits {
    SbtcLimits { total_cap: Some(1_000), ..SbtcLimits::unlimited() }
}

#[test]
fn block_observer_handles_update_limits_no_contracts_default_limits() {
    handles_update_limits(false, SbtcLimits::unlimited());
}

#[test]
fn block_observer_handles_update_limits_no_contracts_total_cap_limit() {
    handles_update_limits(false, total_cap_limits());
}

#[test]
fn block_observer_handles_update_limits_deployed_contracts_default_limits() {
    handles_update_limits(true, SbtcLimits::unlimited());
}

#[test]
fn block_observer_handles_update_limits_deployed_contracts_total_cap_limit() {
    handles_update_limits(true, total_cap_limits());
}

#[test]
fn block_observer_updates_state_after_observing_bitcoin_block() {
    let mut store = Store::new();
    let mut state = SignerState::new(0);
    assert!(state.get_current_limits().same(&SbtcLimits::zero()));
    assert!(state.registry_signer_set_info().is_none());

    // The chain records what the latest verified shares say, as far as there are any.
    let from_chain = |store: &Store| store.get_latest_verified_dkg_shares().map(|s| SignerSetInfo::from_shares(&s));

    let registry = from_chain(&store);
    process_chain_tip(
        &mut store,
        &mut state,
        10,
        &vec![],
        &vec![],
        &vec![block(101, vec![])],
        FetchedState {
            limits: SbtcLimits::unlimited(),
            contracts_deployed: false,
            registry_signer_set_info: registry,
        },
    );
    assert_eq!(store.get_bitcoin_canonical_chain_tip().map(|b| b.block_hash), Some(block_hash(101)));
    assert!(state.get_current_limits().same(&SbtcLimits::unlimited()));
    assert!(state.registry_signer_set_info().is_none());

    let dkg_shares = shares(0x30, DkgSharesStatus::Verified, 101);
    store.write_encrypted_dkg_shares(&dkg_shares);
    state.set_sbtc_contracts_deployed();

    let registry = from_chain(&store);
    process_chain_tip(
        &mut store,
        &mut state,
        10,
        &vec![],
        &vec![],
        &vec![block(102, vec![])],
        FetchedState {
            limits: SbtcLimits::unlimited(),
            contracts_deployed: false,
            registry_signer_set_info: registry,
        },
    );
    assert_eq!(store.get_bitcoin_canonical_chain_tip().map(|b| b.block_hash), Some(block_hash(102)));

    let signer_set_info = state.registry_signer_set_info().unwrap();
    assert!(state.get_current_limits().same(&SbtcLimits::unlimited()));
    assert_eq!(signer_set_info.aggregate_key, dkg_shares.aggregate_key);
    assert_eq!(signer_set_info.signatures_required, dkg_shares.signature_share_threshold);
    assert_eq!(signer_set_info.signer_set, dkg_shares.signer_set_public_keys);
}

#[test]
fn block_observer_updates_dkg_shares_after_observing_bitcoin_block() {
    let verification_window = 5;
    let mut store = Store::new();
    let mut state = SignerState::new(0);
    let mut observe = |store: &mut Store, height: u64| {
        process_chain_tip(
            store,
            &mut state,
            verification_window,
            &vec![],
            &vec![],
            &vec![block(height, vec![])],
            fetched(SbtcLimits::unlimited()),
        );
        let tip = store.get_bitcoin_canonical_chain_tip().unwrap();
        assert_eq!(tip.block_hash, block_hash(height));
        tip
    };

    // Initially there are no shares.
    assert!(store.get_latest_encrypted_dkg_shares().is_none());
    let tip = observe(&mut store, 101);
    assert!(store.get_latest_encrypted_dkg_shares().is_none());
    assert_eq!(store.get_encrypted_dkg_shares_count(), 0);
    assert!(!store.has_pending_dkg_shares());

    let dkg_shares = shares(7, DkgSharesStatus::Unverified, tip.block_height);
    store.write_encrypted_dkg_shares(&dkg_shares);
    assert_eq!(store.get_encrypted_dkg_shares_count(), 1);
    assert!(store.has_pending_dkg_shares());

    // While in the verification window, the shares stay pending.
    for n in 0..verification_window {
        observe(&mut store, 102 + n);
        let latest_dkg = store.get_latest_encrypted_dkg_shares().unwrap();
        assert_eq!(latest_dkg, dkg_shares);
        assert_eq!(store.get_encrypted_dkg_shares_count(), 1);
        assert!(store.has_pending_dkg_shares());
    }

    // With this block the verification window is left.
    observe(&mut store, 102 + verification_window);
    let latest_dkg = store.get_latest_encrypted_dkg_shares().unwrap();
    assert_eq!(latest_dkg.dkg_shares_status, DkgSharesStatus::Failed);
    assert_eq!(store.get_encrypted_dkg_shares_count(), 0);
    assert!(!store.has_pending_dkg_shares());
}

#[test]
fn backfill_then_process_each_new_block_once() {
    let mut source = HeaderSource::new();
    for height in 100..=105 {
        source.add(header(height));
    }
    let mut store = Store::new();
    store.write_encrypted_dkg_shares(&shares(1, DkgSharesStatus::Verified, 100));
    let fetch = |headers: Vec<BitcoinBlockHeader>| -> Vec<FetchedBlock> {
        headers
            .into_iter()
            .map(|h| FetchedBlock {
                header: h,
                transactions: vec![donation(Hash256 { bytes: [h.height as u8; 32] }, h.height)],
            })
            .collect()
    };
    let headers = headers_to_process(&source, &store, 102, block_hash(104)).unwrap();
    assert_eq!(headers.iter().map(|h| h.height).collect::<Vec<_>>(), vec![102, 103, 104]);
    for fetched_block in fetch(headers) {
        process_bitcoin_block(&mut store, &fetched_block);
    }
    assert_eq!(store.bitcoin_blocks().len(), 3);
    assert_eq!(store.tx_outputs().len(), 3);

    // The next tip builds on a known block: one header is new.
    let headers = headers_to_process(&source, &store, 102, block_hash(105)).unwrap();
    assert_eq!(headers, vec![header(105)]);
    for fetched_block in fetch(headers) {
        process_bitcoin_block(&mut store, &fetched_block);
    }
    assert_eq!(store.bitcoin_blocks().len(), 4);
    assert_eq!(store.tx_outputs().len(), 4);
    assert!(headers_to_process(&source, &store, 102, block_hash(105)).unwrap().is_empty());
    assert_eq!(store.get_signers_script_pubkeys(), vec![signer_script()]);
}
