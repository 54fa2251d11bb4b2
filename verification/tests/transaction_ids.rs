use sbtc_bridge::signer::model::{Hash256, OutPoint};
use sbtc_bridge::signer::transaction::{Transaction, TxIn, TxOut};

fn unhex(text: &str) -> Vec<u8> {
    (0..text.len())
        .step_by(2)
        .map(|i| u8::from_str_radix(&text[i..i + 2], 16).unwrap())
        .collect()
}

/// The coinbase transaction of the first Bitcoin block.
fn genesis_coinbase() -> Transaction {
    Transaction {
        version: 1,
        lock_time: 0,
        input: vec![TxIn {
            previous_output: OutPoint { txid: Hash256 { bytes: [0; 32] }, vout: 0xffff_ffff },
            script_sig: unhex(
                "04ffff001d0104455468652054696d65732030332f4a616e2f32303039204368616e63656c6c6f72206f6e206272696e6b206f66207365636f6e64206261696c6f757420666f722062616e6b73",
            ),
            sequence: 0xffff_ffff,
        }],
        output: vec![TxOut {
            value: 50_0000_0000,
            script_pubkey: unhex(
                "4104678afdb0fe5548271967f1a67130b7105cd6a828e03909a67962e0ea1f61deb649f6bc3f4cef38c4f35504e51ec112de5c384df7ba0b8d578a4c702b6bf11d5fac",
            ),
        }],
    }
}

#[test]
fn txid_of_the_first_coinbase() {
    let tx = genesis_coinbase();
    assert!(tx.is_coinbase());
    let mut expected = unhex("4a5e1e4baab89f3a32518a88c31bc87f618f76673e2cc77ab2127b7afdeda33b");
    expected.reverse();
    assert_eq!(tx.compute_txid().bytes.to_vec(), expected);
}

#[test]
fn txid_covers_every_part_of_the_transaction() {
    let base = genesis_coinbase().compute_txid();
    let mut tx = genesis_coinbase();
    tx.version = 2;
    assert_ne!(tx.compute_txid(), base);
    let mut tx = genesis_coinbase();
    tx.lock_time = 1;
    assert_ne!(tx.compute_txid(), base);
    let mut tx = genesis_coinbase();
    tx.input[0].sequence = 0;
    assert_ne!(tx.compute_txid(), base);
    let mut tx = genesis_coinbase();
    tx.input[0].previous_output.vout = 0;
    assert_ne!(tx.compute_txid(), base);
    let mut tx = genesis_coinbase();
    tx.output[0].value = 1;
    assert_ne!(tx.compute_txid(), base);
    let mut tx = genesis_coinbase();
    tx.output[0].script_pubkey.push(0);
    assert_ne!(tx.compute_txid(), base);
    assert_eq!(genesis_coinbase().compute_txid(), base);
}

#[test]
fn txid_agrees_with_the_bitcoin_crate() {
    let raw = unhex(
        "01000000010000000000000000000000000000000000000000000000000000000000000000ffffffff4d04ffff001d0104455468652054696d65732030332f4a616e2f32303039204368616e63656c6c6f72206f6e206272696e6b206f66207365636f6e64206261696c6f757420666f722062616e6b73ffffffff0100f2052a01000000434104678afdb0fe5548271967f1a67130b7105cd6a828e03909a67962e0ea1f61deb649f6bc3f4cef38c4f35504e51ec112de5c384df7ba0b8d578a4c702b6bf11d5fac00000000",
    );
    let parsed: bitcoin::Transaction = bitcoin::consensus::deserialize(&raw).unwrap();
    let expected: [u8; 32] = *AsRef::<[u8; 32]>::as_ref(&parsed.compute_txid());
    assert_eq!(genesis_coinbase().compute_txid().bytes, expected);
    assert_eq!(parsed.is_coinbase(), genesis_coinbase().is_coinbase());
}
