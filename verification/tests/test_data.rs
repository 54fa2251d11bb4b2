use rand::rngs::StdRng;
use rand::SeedableRng;
use sbtc_bridge::signer::model::{
    BitcoinBlock, BitcoinBlockRef, BitcoinTxRef, DepositRequest, Hash256, OutPoint, PublicKey,
    StacksBlock, TxOutputType, TxPrevoutType,
};
use sbtc_bridge::signer::store::Store;
use sbtc_bridge::signer::testing::{
    to_x_only, vec_diff, DepositData, Params, StacksBlockSummary, TestBitcoinTxInfo, TestData,
    WithdrawData,
};
use sbtc_bridge::signer::transaction::{Transaction, TxIn, TxOut};

fn rng() -> StdRng {
    StdRng::seed_from_u64(46)
}

fn hash(n: u8) -> Hash256 {
    Hash256 { bytes: [n; 32] }
}

fn unhex(text: &str) -> Vec<u8> {
    (0..text.len())
        .step_by(2)
        .map(|i| u8::from_str_radix(&text[i..i + 2], 16).unwrap())
        .collect()
}

fn public_key(text: &str) -> PublicKey {
    let mut bytes = [0u8; 33];
    bytes.copy_from_slice(&unhex(text));
    PublicKey { bytes }
}

/// The generator of the curve and its double.
fn two_keys() -> Vec<PublicKey> {
    vec![
        public_key("0279be667ef9dcbbac55a06295ce870b07029bfcdb2dce28d959f2815b16f81798"),
        public_key("02c6047f9441ed7d6d3045406e95c07cd85c778e4b8cef3ca7abac09b95c709ee5"),
    ]
}

fn block(n: u8, height: u64, parent: u8) -> BitcoinBlock {
    BitcoinBlock { block_hash: hash(n), block_height: height, parent_hash: hash(parent) }
}

#[test]
fn push_appends_and_remove_takes_away() {
    let mut data = TestData::new();
    let mut first = TestData::new();
    first.bitcoin_blocks = vec![block(1, 10, 0), block(2, 11, 1)];
    first.bitcoin_transactions = vec![BitcoinTxRef { txid: hash(7), block_hash: hash(1) }];
    let mut second = TestData::new();
    second.bitcoin_blocks = vec![block(3, 12, 2), block(1, 10, 0)];
    data.push(first);
    data.push(second);
    assert_eq!(
        data.bitcoin_blocks,
        vec![block(1, 10, 0), block(2, 11, 1), block(3, 12, 2), block(1, 10, 0)]
    );
    assert_eq!(data.bitcoin_transactions.len(), 1);
    assert_eq!(data.get_bitcoin_block(&hash(3)), Some(block(3, 12, 2)));
    assert_eq!(data.get_bitcoin_block(&hash(9)), None);

    let mut gone = TestData::new();
    gone.bitcoin_blocks = vec![block(1, 10, 0), block(8, 1, 1)];
    gone.bitcoin_transactions = vec![BitcoinTxRef { txid: hash(7), block_hash: hash(2) }];
    data.remove(gone);
    assert_eq!(data.bitcoin_blocks, vec![block(2, 11, 1), block(3, 12, 2)]);
    assert_eq!(data.bitcoin_transactions.len(), 1);
}

#[test]
fn vec_diff_keeps_the_order_of_what_stays() {
    let mut rows = vec![block(1, 1, 0), block(2, 2, 1), block(1, 1, 0), block(3, 3, 2)];
    vec_diff(&mut rows, &vec![block(1, 1, 0)]);
    assert_eq!(rows, vec![block(2, 2, 1), block(3, 3, 2)]);
    // Only rows with the same values go.
    vec_diff(&mut rows, &vec![block(2, 99, 1)]);
    assert_eq!(rows, vec![block(2, 2, 1), block(3, 3, 2)]);
    vec_diff(&mut rows, &vec![]);
    assert_eq!(rows.len(), 2);
    vec_diff(&mut rows, &vec![block(3, 3, 2), block(2, 2, 1)]);
    assert!(rows.is_empty());
}

#[test]
fn get_bitcoin_block_gives_the_first_with_the_hash() {
    let mut data = TestData::new();
    data.bitcoin_blocks = vec![block(1, 10, 0), block(2, 11, 1), block(2, 99, 1)];
    assert_eq!(data.get_bitcoin_block(&hash(2)), Some(block(2, 11, 1)));
}

#[test]
fn summaries_name_a_block_and_make_up_a_parent() {
    let b = block(5, 70, 4);
    assert_eq!(
        BitcoinBlockRef::summarize(&b),
        BitcoinBlockRef { block_hash: hash(5), block_height: 70 }
    );
    assert_eq!(
        BitcoinBlockRef::hallucinate_parent(&b),
        BitcoinBlockRef { block_hash: hash(4), block_height: 1337 }
    );
    let s = StacksBlock {
        block_hash: hash(6),
        block_height: 8,
        parent_hash: hash(5),
        bitcoin_anchor: hash(1),
    };
    let summary = StacksBlockSummary::summarize(&s);
    assert_eq!((summary.block_hash, summary.block_height), (hash(6), 8));
    let parent = StacksBlockSummary::hallucinate_parent(&s);
    assert_eq!((parent.block_hash, parent.block_height), (hash(5), 1337));
}

#[test]
fn check_simple_chain() {
    let mut rng = rng();
    let params = Params {
        num_bitcoin_blocks: 10,
        num_stacks_blocks_per_bitcoin_block: 5,
        num_deposit_requests_per_block: 0,
        num_withdraw_requests_per_block: 0,
        num_signers_per_request: 0,
        consecutive_blocks: true,
    };
    let test_data = TestData::generate(&mut rng, &two_keys(), &params);
    let mut store = Store::new();
    test_data.write_to(&mut store);

    assert_eq!(store.bitcoin_blocks().len(), 10);
    assert_eq!(store.stacks_blocks().len(), 50);
    let tip = store.get_bitcoin_canonical_chain_tip().unwrap();
    assert_eq!(tip, test_data.bitcoin_blocks[9]);
    assert_eq!(tip.block_height, 1337 + 10);

    // Walk the Stacks chain back from the last block of the tip.
    let mut walk = vec![*test_data.stacks_blocks.last().unwrap()];
    assert_eq!(walk[0].bitcoin_anchor, tip.block_hash);
    loop {
        let last = *walk.last().unwrap();
        let parent = store.stacks_blocks().iter().find(|b| b.block_hash == last.parent_hash);
        match parent {
            Some(current) => {
                assert_eq!(current.block_height, last.block_height - 1);
                walk.push(*current);
            }
            None => break,
        }
    }
    assert!(walk.len() >= 10);
    assert_eq!(walk.len(), 50);
}

#[test]
fn generate_makes_as_much_as_asked_for() {
    let mut rng = rng();
    let params = Params {
        num_bitcoin_blocks: 4,
        num_stacks_blocks_per_bitcoin_block: 0,
        num_deposit_requests_per_block: 3,
        num_withdraw_requests_per_block: 2,
        num_signers_per_request: 7,
        consecutive_blocks: false,
    };
    let keys = two_keys();
    let data = TestData::generate(&mut rng, &keys, &params);
    assert_eq!(data.bitcoin_blocks.len(), 4);
    assert_eq!(data.stacks_blocks.len(), 4);
    assert_eq!(data.deposit_requests.len(), 12);
    assert_eq!(data.bitcoin_transactions.len(), 12);
    assert_eq!(data.deposit_signers.len(), 24);
    assert_eq!(data.withdraw_requests.len(), 8);
    assert_eq!(data.withdraw_signers.len(), 16);
    assert!(data.tx_outputs.is_empty());
    assert!(data.tx_prevouts.is_empty());

    assert_eq!(data.bitcoin_blocks[0].block_height, 1338);
    for i in 1..4 {
        let child = data.bitcoin_blocks[i];
        assert!(data.bitcoin_blocks[..i]
            .iter()
            .any(|p| p.block_hash == child.parent_hash && p.block_height + 1 == child.block_height));
    }
    for (k, request) in data.withdraw_requests.iter().enumerate() {
        assert_eq!(request.request_id, k as u64 + 1);
        assert!(data.stacks_blocks.iter().any(|b| b.block_hash == request.block_hash));
    }
    // Each request is locked to the sum of the two keys: three times the generator.
    let sum = public_key("02f9308a019258c31049344f85f89d5229b531c845836f99b08601f113bce036f9");
    for (k, request) in data.deposit_requests.iter().enumerate() {
        assert_eq!(request.signers_public_key, to_x_only(&sum));
        assert_eq!(data.bitcoin_transactions[k].txid, request.txid);
        assert_eq!(data.bitcoin_transactions[k].block_hash, data.bitcoin_blocks[k / 3].block_hash);
        for j in 0..2 {
            let decision = data.deposit_signers[2 * k + j];
            assert_eq!(decision.txid, request.txid);
            assert_eq!(decision.output_index, request.output_index);
            assert_eq!(decision.signer_pub_key, keys[j]);
            assert!(decision.can_sign);
        }
    }
    for (k, decision) in data.withdraw_signers.iter().enumerate() {
        assert_eq!(decision.request_id, data.withdraw_requests[k / 2].request_id);
        assert_eq!(decision.signer_pub_key, keys[k % 2]);
    }
    // Random scripts are short.
    assert!(data.deposit_requests.iter().all(|r| r.spend_script.len() < 10));
    assert!(data.withdraw_requests.iter().all(|r| r.recipient.len() < 10));
    // A copy holds the same rows.
    let copy = data.clone();
    assert_eq!(copy.deposit_requests, data.deposit_requests);
    assert_eq!(copy.withdraw_signers, data.withdraw_signers);
    assert!(TestData::default().bitcoin_blocks.is_empty());
    // The same seed gives the same data.
    let again = TestData::generate(&mut StdRng::seed_from_u64(46), &keys, &params);
    assert_eq!(again.bitcoin_blocks, data.bitcoin_blocks);
    assert_eq!(again.withdraw_requests, data.withdraw_requests);
    // Random values differ from one to the next.
    assert_ne!(data.bitcoin_blocks[0].block_hash, data.bitcoin_blocks[1].block_hash);
    assert_ne!(data.deposit_requests[0].txid, data.deposit_requests[1].txid);
}

#[test]
fn x_only_drops_the_first_byte() {
    let key = public_key("02f9308a019258c31049344f85f89d5229b531c845836f99b08601f113bce036f9");
    assert_eq!(
        to_x_only(&key).bytes.to_vec(),
        unhex("f9308a019258c31049344f85f89d5229b531c845836f99b08601f113bce036f9")
    );
}

#[test]
fn keys_without_a_sum_give_a_random_key() {
    let mut rng = rng();
    // The generator and its negation add up to the point at infinity.
    let keys = vec![
        public_key("0279be667ef9dcbbac55a06295ce870b07029bfcdb2dce28d959f2815b16f81798"),
        public_key("0379be667ef9dcbbac55a06295ce870b07029bfcdb2dce28d959f2815b16f81798"),
    ];
    let data = DepositData::generate(&mut rng, &keys, &block(1, 5, 0), 2, 1);
    assert_eq!(data.deposit_requests.len(), 2);
    assert_eq!(data.deposit_signers.len(), 2);
    let none = DepositData::generate(&mut rng, &vec![], &block(1, 5, 0), 2, 3);
    assert_eq!(none.deposit_requests.len(), 2);
    assert!(none.deposit_signers.is_empty());
    assert_eq!(none.bitcoin_transactions[1].block_hash, hash(1));
    let empty = DepositData::new();
    assert!(empty.deposit_requests.is_empty());
}

#[test]
fn withdrawals_are_numbered_on_from_the_greatest() {
    let mut rng = rng();
    let stacks = vec![StacksBlock {
        block_hash: hash(6),
        block_height: 8,
        parent_hash: hash(5),
        bitcoin_anchor: hash(1),
    }];
    let first = WithdrawData::generate(&mut rng, &two_keys(), &block(1, 5, 0), &stacks, &vec![], 3, 1);
    let ids: Vec<u64> = first.withdraw_requests.iter().map(|r| r.request_id).collect();
    assert_eq!(ids, vec![1, 2, 3]);
    let mut held = first.withdraw_requests;
    held[0].request_id = 40;
    let next = WithdrawData::generate(&mut rng, &two_keys(), &block(2, 6, 1), &stacks, &held, 2, 2);
    let ids: Vec<u64> = next.withdraw_requests.iter().map(|r| r.request_id).collect();
    assert_eq!(ids, vec![41, 42]);
    assert!(next.withdraw_requests.iter().all(|r| r.block_hash == hash(6)));
    assert!(next.withdraw_requests.iter().all(|r| r.bitcoin_block_height == 6));
    assert_eq!(next.withdraw_signers.len(), 4);
    assert!(WithdrawData::new().withdraw_requests.is_empty());
}

#[test]
fn new_block_builds_on_the_given_parent() {
    let mut rng = rng();
    let params = Params {
        num_bitcoin_blocks: 1,
        num_stacks_blocks_per_bitcoin_block: 3,
        num_deposit_requests_per_block: 1,
        num_withdraw_requests_per_block: 1,
        num_signers_per_request: 1,
        consecutive_blocks: true,
    };
    let data = TestData::new();
    let parent = BitcoinBlockRef { block_hash: hash(9), block_height: 700 };
    let (chunk, block_ref) = data.new_block(&mut rng, &two_keys(), &params, Some(&parent));
    assert_eq!(chunk.bitcoin_blocks.len(), 1);
    assert_eq!(chunk.bitcoin_blocks[0].parent_hash, hash(9));
    assert_eq!(chunk.bitcoin_blocks[0].block_height, 701);
    assert_eq!(block_ref, BitcoinBlockRef::summarize(&chunk.bitcoin_blocks[0]));
    assert_eq!(chunk.stacks_blocks.len(), 3);
    assert_eq!(chunk.stacks_blocks[0].block_height, 1338);
    assert_eq!(chunk.stacks_blocks[2].block_height, 1340);
    assert_eq!(chunk.stacks_blocks[2].parent_hash, chunk.stacks_blocks[1].block_hash);
    assert!(chunk.stacks_blocks.iter().all(|b| b.bitcoin_anchor == block_ref.block_hash));
    assert_eq!(chunk.withdraw_requests[0].request_id, 1);
    assert_eq!(chunk.withdraw_requests[0].bitcoin_block_height, 701);
}

fn test_tx(outputs: Vec<TxOut>, input: Vec<TxIn>, prevouts: Vec<TxOut>) -> TestBitcoinTxInfo {
    TestBitcoinTxInfo { tx: Transaction { version: 2, lock_time: 0, input, output: outputs }, prevouts }
}

#[test]
fn push_bitcoin_txs_classifies_each_transaction() {
    let mut rng = rng();
    let signer_script = vec![0x51, 0x20, 9, 9];
    let scripts = vec![signer_script.clone()];
    let mut data = TestData::new();
    data.deposit_requests = vec![DepositRequest {
        txid: hash(0x77),
        output_index: 2,
        spend_script: vec![],
        reclaim_script: vec![],
        recipient: vec![],
        amount: 500,
        max_fee: 5,
        lock_time: 1,
        signers_public_key: hash(1),
    }];

    let random_input = TestBitcoinTxInfo::random_prevout(&mut rng);
    assert_eq!(random_input.previous_output.vout, 0);
    assert_eq!(random_input.sequence, 0);
    assert!(random_input.script_sig.is_empty());
    let spent_txid = random_input.previous_output.txid;

    let donation = test_tx(
        vec![TxOut { value: 1_000, script_pubkey: signer_script.clone() }],
        vec![],
        vec![],
    );
    let sweep = test_tx(
        vec![
            TxOut { value: 1_400, script_pubkey: signer_script.clone() },
            TxOut { value: 0, script_pubkey: vec![0x6a, 0x01, 0x02] },
        ],
        vec![
            random_input,
            TxIn {
                previous_output: OutPoint { txid: hash(0x77), vout: 2 },
                script_sig: vec![],
                sequence: 0,
            },
        ],
        vec![
            TxOut { value: 1_000, script_pubkey: signer_script.clone() },
            TxOut { value: 500, script_pubkey: vec![0x51] },
        ],
    );
    let donation_txid = donation.tx_ref().compute_txid();
    let sweep_txid = sweep.tx.compute_txid();
    assert_ne!(donation_txid, sweep_txid);
    let prevout = sweep.prevout(1).unwrap();
    assert_eq!(prevout.amount, 500);
    assert_eq!(*prevout.txid, hash(0x77));
    assert_eq!(prevout.output_index, 2);
    assert_eq!(*prevout.script_pubkey, vec![0x51]);
    assert!(sweep.prevout(2).is_none());
    assert!(donation.prevout(0).is_none());

    let block = BitcoinBlockRef { block_hash: hash(0xb0), block_height: 5 };
    data.push_bitcoin_txs(&block, vec![donation, sweep], &scripts);

    assert_eq!(
        data.bitcoin_transactions,
        vec![
            BitcoinTxRef { txid: donation_txid, block_hash: hash(0xb0) },
            BitcoinTxRef { txid: sweep_txid, block_hash: hash(0xb0) },
        ]
    );
    let kinds: Vec<_> = data.tx_outputs.iter().map(|o| (o.txid, o.output_index, o.output_type)).collect();
    assert_eq!(
        kinds,
        vec![
            (donation_txid, 0, TxOutputType::Donation),
            (sweep_txid, 0, TxOutputType::SignersOutput),
            (sweep_txid, 1, TxOutputType::SignersOpReturn),
        ]
    );
    let spent: Vec<_> = data
        .tx_prevouts
        .iter()
        .map(|p| (p.txid, p.prevout_txid, p.prevout_output_index, p.amount, p.prevout_type))
        .collect();
    assert_eq!(
        spent,
        vec![
            (sweep_txid, spent_txid, 0, 1_000, TxPrevoutType::SignersInput),
            (sweep_txid, hash(0x77), 2, 500, TxPrevoutType::Deposit),
        ]
    );

    // Writing the data twice leaves one row for each key.
    let mut store = Store::new();
    data.write_to(&mut store);
    data.write_to(&mut store);
    assert_eq!(store.tx_outputs().len(), 3);
    assert_eq!(store.tx_prevouts().len(), 2);
    assert_eq!(store.bitcoin_transactions().len(), 2);
    assert_eq!(store.deposit_requests().len(), 1);
    assert!(store.is_deposit(&OutPoint { txid: hash(0x77), vout: 2 }));
    assert!(!store.is_deposit(&OutPoint { txid: hash(0x77), vout: 3 }));
}
