use sbtc_bridge::signer::deposits::{
    check_principal, CreateDepositRequest, DepositScriptInputs, ReclaimScriptInputs,
};
use sbtc_bridge::signer::error::Error;
use sbtc_bridge::signer::model::{Hash256, OutPoint};
use sbtc_bridge::signer::transaction::{Transaction, TxIn, TxOut};

fn standard_principal() -> Vec<u8> {
    let mut bytes = vec![0x05, 22];
    bytes.extend([0xaa; 20]);
    bytes
}

fn contract_principal(name: &[u8]) -> Vec<u8> {
    let mut bytes = vec![0x06, 26];
    bytes.extend([0xbb; 20]);
    bytes.push(name.len() as u8);
    bytes.extend_from_slice(name);
    bytes
}

fn deposit_script(max_fee: u64, recipient: &[u8], key: [u8; 32]) -> Vec<u8> {
    let mut script = vec![(8 + recipient.len()) as u8];
    script.extend(max_fee.to_be_bytes());
    script.extend_from_slice(recipient);
    script.extend([0x75, 0x20]);
    script.extend(key);
    script.push(0xac);
    script
}

fn reclaim_script(lock_time: i64, rest: &[u8]) -> Vec<u8> {
    let mut script = bitcoin::script::Builder::new()
        .push_int(lock_time)
        .push_opcode(bitcoin::opcodes::all::OP_CSV)
        .into_bytes();
    script.extend_from_slice(rest);
    script
}

#[test]
fn deposit_script_says_fee_recipient_and_key() {
    let key = [0x42; 32];
    let script = deposit_script(100_042, &standard_principal(), key);
    assert_eq!(script.len(), 66);
    let inputs = DepositScriptInputs::parse(&script).unwrap();
    assert_eq!(inputs.max_fee, 100_042);
    assert_eq!(inputs.recipient, standard_principal());
    assert_eq!(inputs.signers_public_key, Hash256 { bytes: key });

    let recipient = contract_principal(b"my-contract");
    let script = deposit_script(u64::MAX - 1, &recipient, key);
    let inputs = DepositScriptInputs::parse(&script).unwrap();
    assert_eq!(inputs.max_fee, u64::MAX - 1);
    assert_eq!(inputs.recipient, recipient);

    let longest = contract_principal(&[b'a'; 40]);
    assert!(DepositScriptInputs::parse(&deposit_script(1, &longest, key)).is_some());
}

#[test]
fn deposit_script_agrees_with_the_bitcoin_crate() {
    let key = [0x42; 32];
    let mut data = 1_250_000u64.to_be_bytes().to_vec();
    data.extend(standard_principal());
    let push: &bitcoin::script::PushBytes = data.as_slice().try_into().unwrap();
    let built = bitcoin::script::Builder::new()
        .push_slice(push)
        .push_opcode(bitcoin::opcodes::all::OP_DROP)
        .push_slice(key)
        .push_opcode(bitcoin::opcodes::all::OP_CHECKSIG)
        .into_bytes();
    assert_eq!(built, deposit_script(1_250_000, &standard_principal(), key));
    assert_eq!(DepositScriptInputs::parse(&built).unwrap().max_fee, 1_250_000);
}

#[test]
fn malformed_deposit_scripts_are_refused() {
    let key = [0x42; 32];
    let good = deposit_script(5, &standard_principal(), key);
    assert!(DepositScriptInputs::parse(&good).is_some());
    assert!(DepositScriptInputs::parse(&vec![]).is_none());
    assert!(DepositScriptInputs::parse(&good[..good.len() - 1].to_vec()).is_none());

    let mut longer = good.clone();
    longer.push(0);
    assert!(DepositScriptInputs::parse(&longer).is_none());

    for (at, byte) in [(0usize, 29u8), (9, 0x04), (10, 32), (31, 0x76), (32, 0x21), (65, 0xad)] {
        let mut bad = good.clone();
        bad[at] = byte;
        assert!(DepositScriptInputs::parse(&bad).is_none(), "byte {} as {}", at, byte);
    }
    // A contract principal without a name, and one whose name is too long.
    assert!(DepositScriptInputs::parse(&deposit_script(5, &contract_principal(b""), key)).is_none());
    assert!(
        DepositScriptInputs::parse(&deposit_script(5, &contract_principal(&[b'a'; 41]), key))
            .is_none()
    );
    assert!(check_principal(&standard_principal()));
    assert!(check_principal(&contract_principal(b"a")));
    assert!(!check_principal(&standard_principal()[..21].to_vec()));
    assert!(!check_principal(&vec![]));
}

#[test]
fn reclaim_script_says_the_lock_time() {
    for lock_time in [0u32, 1, 2, 15, 16, 17, 50, 127, 128, 200, 255, 256, 1000, 32767, 32768, 40_000, 65535] {
        let script = reclaim_script(lock_time as i64, &[0x51]);
        let inputs = ReclaimScriptInputs::parse(&script).unwrap();
        assert_eq!(inputs.lock_time, lock_time, "script {:?}", script);
        assert_eq!(inputs.script, vec![0x51]);
    }
    let inputs = ReclaimScriptInputs::parse(&reclaim_script(50, &[])).unwrap();
    assert_eq!(inputs.lock_time, 50);
    assert!(inputs.script.is_empty());
    assert_eq!(reclaim_script(50, &[]), vec![0x01, 50, 0xb2]);
}

#[test]
fn malformed_reclaim_scripts_are_refused() {
    for script in [
        vec![],
        vec![0x00],
        vec![0xb2],
        vec![0x00, 0xb1],
        // minus one, and numbers beyond sixteen bits
        vec![0x4f, 0xb2],
        reclaim_script(-5, &[]),
        reclaim_script(65536, &[]),
        reclaim_script(1 << 22, &[]),
        // pushes that are not the shortest
        vec![0x01, 0x05, 0xb2],
        vec![0x01, 0x00, 0xb2],
        vec![0x02, 0x05, 0x00, 0xb2],
        vec![0x03, 0x05, 0x01, 0x00, 0xb2],
        vec![0x01, 0x80, 0xb2],
        vec![0x02, 0x05, 0x80, 0xb2],
        // no check of the lock time after the push
        vec![0x01, 50],
        vec![0x01, 50, 0xb1],
    ] {
        assert!(ReclaimScriptInputs::parse(&script).is_none(), "script {:?}", script);
    }
}

fn funding_tx(outputs: Vec<TxOut>) -> Transaction {
    Transaction {
        version: 2,
        lock_time: 0,
        input: vec![TxIn {
            previous_output: OutPoint { txid: Hash256 { bytes: [9; 32] }, vout: 1 },
            script_sig: vec![],
            sequence: 0,
        }],
        output: outputs,
    }
}

#[test]
fn a_deposit_is_held_against_its_transaction() {
    let key = [0x42; 32];
    let outpoint = OutPoint { txid: Hash256 { bytes: [7; 32] }, vout: 1 };
    let request = CreateDepositRequest {
        outpoint,
        deposit_script: deposit_script(1_250_000, &standard_principal(), key),
        reclaim_script: reclaim_script(50, &[]),
    };
    let tx = funding_tx(vec![
        TxOut { value: 1, script_pubkey: vec![] },
        TxOut { value: 2_500_000, script_pubkey: vec![0x51, 0x20, 1] },
    ]);
    let deposit = request.validate_tx(Some(&tx)).unwrap();
    assert_eq!(deposit.outpoint(), outpoint);
    assert_eq!(deposit.amount, 2_500_000);
    assert_eq!(deposit.max_fee, 1_250_000);
    assert_eq!(deposit.lock_time, 50);
    assert_eq!(deposit.recipient, standard_principal());
    assert_eq!(deposit.signers_public_key, Hash256 { bytes: key });
    assert_eq!(deposit.spend_script, request.deposit_script);
    assert_eq!(deposit.reclaim_script, request.reclaim_script);

    assert!(matches!(request.validate_tx(None), Err(Error::BitcoinTxMissing(o)) if o == outpoint));
    let short = funding_tx(vec![TxOut { value: 1, script_pubkey: vec![] }]);
    assert!(matches!(request.validate_tx(Some(&short)), Err(Error::OutputMissing(o)) if o == outpoint));

    let mut coinbase = funding_tx(vec![
        TxOut { value: 1, script_pubkey: vec![] },
        TxOut { value: 2_500_000, script_pubkey: vec![] },
    ]);
    coinbase.input[0].previous_output = OutPoint { txid: Hash256 { bytes: [0; 32] }, vout: u32::MAX };
    match request.validate_tx(Some(&coinbase)) {
        Err(Error::BitcoinTxCoinbase(txid)) if txid == outpoint.txid => {}
        other => panic!("Expected a err, got something else: {:?}", other),
    }

    let bad_deposit = CreateDepositRequest {
        outpoint,
        deposit_script: vec![1, 2, 3],
        reclaim_script: reclaim_script(50, &[]),
    };
    assert!(matches!(
        bad_deposit.validate_tx(Some(&tx)),
        Err(Error::InvalidDepositScript(o)) if o == outpoint
    ));
    let bad_reclaim = CreateDepositRequest {
        outpoint,
        deposit_script: deposit_script(1, &standard_principal(), key),
        reclaim_script: vec![0x01, 0x05, 0xb2],
    };
    assert!(matches!(
        bad_reclaim.validate_tx(Some(&tx)),
        Err(Error::InvalidReclaimScript(o)) if o == outpoint
    ));
}
