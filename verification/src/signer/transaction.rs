//! Bitcoin transactions as the signers read them.

use super::model::{bytes_clone, BitcoinTxId, Hash256, OutPoint, ScriptPubKey};
use bitcoin::absolute::LockTime;
use bitcoin::transaction::Version;
use bitcoin::{Amount, Script, ScriptBuf, Sequence, Witness};
use vstd::prelude::*;

verus! {

/// The opcode that opens an output which carries data and can never be
/// spent.
pub const OP_RETURN: u8 = 0x6a;

/// The output index that, with an all-zero transaction id, stands for "no
/// previous output".
pub const NULL_VOUT: u32 = 0xffff_ffff;

impl OutPoint {
    /// Whether the outpoint names no output: the mark of a coinbase input.
    pub open spec fn is_null(&self) -> bool {
        self.txid.is_zero() && self.vout == NULL_VOUT
    }

    /// Whether the outpoint names no output.
    pub fn null(&self) -> (r: bool)
        ensures
            r == self.is_null(),
    {
        self.vout == NULL_VOUT && self.txid.all_zero()
    }
}

/// An input of a transaction.
#[derive(Debug)]
pub struct TxIn {
    /// The output that the input spends.
    pub previous_output: OutPoint,
    /// The script that unlocks that output.
    pub script_sig: Vec<u8>,
    /// The input's sequence number.
    pub sequence: u32,
}

/// Mathematical value of a [`TxIn`].
pub ghost struct TxInView {
    pub previous_output: OutPoint,
    pub script_sig: Seq<u8>,
    pub sequence: u32,
}

impl View for TxIn {
    type V = TxInView;

    open spec fn view(&self) -> TxInView {
        TxInView {
            previous_output: self.previous_output,
            script_sig: self.script_sig@,
            sequence: self.sequence,
        }
    }
}

impl Clone for TxIn {
    fn clone(&self) -> (r: Self)
        ensures
            r@ == self@,
    {
        TxIn {
            previous_output: self.previous_output,
            script_sig: bytes_clone(&self.script_sig),
            sequence: self.sequence,
        }
    }
}

/// An output of a transaction.
#[derive(Debug)]
pub struct TxOut {
    /// Amount that the output locks, in satoshis.
    pub value: u64,
    /// The script that locks the output.
    pub script_pubkey: ScriptPubKey,
}

/// Mathematical value of a [`TxOut`].
pub ghost struct TxOutView {
    pub value: u64,
    pub script_pubkey: Seq<u8>,
}

impl View for TxOut {
    type V = TxOutView;

    open spec fn view(&self) -> TxOutView {
        TxOutView { value: self.value, script_pubkey: self.script_pubkey@ }
    }
}

impl Clone for TxOut {
    fn clone(&self) -> (r: Self)
        ensures
            r@ == self@,
    {
        TxOut { value: self.value, script_pubkey: bytes_clone(&self.script_pubkey) }
    }
}

/// Mathematical value of a list of inputs.
pub open spec fn inputs_view(input: Seq<TxIn>) -> Seq<TxInView> {
    input.map_values(|i: TxIn| i@)
}

/// Mathematical value of a list of outputs.
pub open spec fn outputs_view(output: Seq<TxOut>) -> Seq<TxOutView> {
    output.map_values(|o: TxOut| o@)
}

/// A Bitcoin transaction, without its witness data.
#[derive(Debug)]
pub struct Transaction {
    /// The transaction's version.
    pub version: i32,
    /// The height or time before which the transaction cannot be mined.
    pub lock_time: u32,
    /// The transaction's inputs.
    pub input: Vec<TxIn>,
    /// The transaction's outputs.
    pub output: Vec<TxOut>,
}

/// Mathematical value of a [`Transaction`].
pub ghost struct TransactionView {
    pub version: i32,
    pub lock_time: u32,
    pub input: Seq<TxInView>,
    pub output: Seq<TxOutView>,
}

impl TransactionView {
    /// Whether the transaction creates coins: it has one input, and that
    /// input spends no output.
    pub open spec fn is_coinbase(self) -> bool {
        self.input.len() == 1 && self.input[0].previous_output.is_null()
    }
}

impl View for Transaction {
    type V = TransactionView;

    open spec fn view(&self) -> TransactionView {
        TransactionView {
            version: self.version,
            lock_time: self.lock_time,
            input: inputs_view(self.input@),
            output: outputs_view(self.output@),
        }
    }
}

/// A copy of a list of outputs.
pub fn outputs_clone(output: &Vec<TxOut>) -> (r: Vec<TxOut>)
    ensures
        outputs_view(r@) == outputs_view(output@),
{
    let mut r: Vec<TxOut> = Vec::new();
    let mut i: usize = 0;
    while i < output.len()
        invariant
            i <= output.len(),
            r.len() == i,
            forall|j: int| 0 <= j < i ==> r@[j]@ == output@[j]@,
        decreases output.len() - i,
    {
        r.push(output[i].clone());
        i += 1;
    }
    assert(outputs_view(r@) =~= outputs_view(output@));
    r
}

impl Clone for Transaction {
    fn clone(&self) -> (r: Self)
        ensures
            r@ == self@,
    {
        let mut input: Vec<TxIn> = Vec::new();
        let mut i: usize = 0;
        while i < self.input.len()
            invariant
                i <= self.input.len(),
                input.len() == i,
                forall|j: int| 0 <= j < i ==> input@[j]@ == self.input@[j]@,
            decreases self.input.len() - i,
        {
            input.push(self.input[i].clone());
            i += 1;
        }
        assert(inputs_view(input@) =~= inputs_view(self.input@));
        Transaction {
            version: self.version,
            lock_time: self.lock_time,
            input,
            output: outputs_clone(&self.output),
        }
    }
}

impl Transaction {
    /// Whether the transaction is a coinbase transaction.
    pub fn is_coinbase(&self) -> (r: bool)
        ensures
            r == self@.is_coinbase(),
    {
        self.input.len() == 1 && self.input[0].previous_output.null()
    }

    /// The transaction's id.
    pub fn compute_txid(&self) -> (r: BitcoinTxId)
        ensures
            r.bytes@ == transaction_id(self@),
    {
        txid_of(self)
    }
}

/// Whether a script opens with `OP_RETURN`.
pub open spec fn is_op_return(script: Seq<u8>) -> bool {
    script.len() > 0 && script[0] == OP_RETURN
}

/// Calls `bitcoin::Script::is_op_return` on the script made of `script`'s
/// bytes. That function looks at the script's first byte: it returns true
/// if there is one and it is the opcode `OP_RETURN`, 0x6a.
#[verifier::external_body]
pub(crate) fn script_is_op_return(script: &Vec<u8>) -> (r: bool)
    ensures
        r == is_op_return(script@),
{
    Script::from_bytes(script).is_op_return()
}

/// The id that `bitcoin::Transaction::compute_txid` gives to a transaction:
/// the double SHA-256 of its encoding without witness data, which is made
/// of the version, the inputs, the outputs and the lock time.
pub uninterp spec fn transaction_id(tx: TransactionView) -> Seq<u8>;

/// Calls `bitcoin::Transaction::compute_txid` on the transaction with the
/// version, lock time, inputs and outputs of `tx` and with empty witnesses,
/// which the id does not cover. The id depends on those values alone.
#[verifier::external_body]
pub(crate) fn txid_of(tx: &Transaction) -> (r: BitcoinTxId)
    ensures
        r.bytes@ == transaction_id(tx@),
{
    let input = tx.input.iter().map(|i| bitcoin::TxIn {
        previous_output: bitcoin::OutPoint::new(bitcoin::hashes::Hash::from_byte_array(i.previous_output.txid.bytes), i.previous_output.vout),
        script_sig: ScriptBuf::from_bytes(i.script_sig.clone()),
        sequence: Sequence(i.sequence),
        witness: Witness::new(),
    }).collect();
    let output = tx.output.iter().map(|o| bitcoin::TxOut {
        value: Amount::from_sat(o.value),
        script_pubkey: ScriptBuf::from_bytes(o.script_pubkey.clone()),
    }).collect();
    let lock_time = LockTime::from_consensus(tx.lock_time);
    let tx = bitcoin::Transaction { version: Version(tx.version), lock_time, input, output };
    Hash256 { bytes: bitcoin::hashes::Hash::to_byte_array(tx.compute_txid()) }
}

} // verus!
