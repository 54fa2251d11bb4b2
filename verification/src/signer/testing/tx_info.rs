//! A transaction with the outputs that it spends.

use crate::signer::classify::{BitcoinTxInfo, BitcoinTxInfoView};
use crate::signer::model::{hash_from, lemma_hash_from, BitcoinTxId, OutPoint, ScriptPubKey};
use crate::signer::random::fake_hash;
use crate::signer::transaction::{
    outputs_clone, outputs_view, transaction_id, Transaction, TransactionView, TxIn, TxOut,
    TxOutView,
};
use rand::rngs::StdRng;
use vstd::prelude::*;

verus! {

/// A transaction together with the outputs that its inputs spend, which
/// is what it takes to tell a sweep from a donation.
#[derive(Debug)]
pub struct TestBitcoinTxInfo {
    /// The transaction.
    pub tx: Transaction,
    /// The outputs that the inputs of the transaction spend, in the order of
    /// the inputs.
    pub prevouts: Vec<TxOut>,
}

/// Mathematical value of a [`TestBitcoinTxInfo`].
pub ghost struct TestBitcoinTxInfoView {
    pub tx: TransactionView,
    pub prevouts: Seq<TxOutView>,
}

impl TestBitcoinTxInfoView {
    /// The transaction as a confirmed transaction with its id.
    pub open spec fn info(self) -> BitcoinTxInfoView {
        BitcoinTxInfoView {
            txid: hash_from(transaction_id(self.tx)),
            tx: self.tx,
            prevouts: self.prevouts.map_values(|o: TxOutView| Some(o)),
        }
    }
}

impl View for TestBitcoinTxInfo {
    type V = TestBitcoinTxInfoView;

    open spec fn view(&self) -> TestBitcoinTxInfoView {
        TestBitcoinTxInfoView { tx: self.tx@, prevouts: outputs_view(self.prevouts@) }
    }
}

impl Clone for TestBitcoinTxInfo {
    fn clone(&self) -> (r: Self)
        ensures
            r@ == self@,
    {
        TestBitcoinTxInfo { tx: self.tx.clone(), prevouts: outputs_clone(&self.prevouts) }
    }
}

/// What an input of a transaction spends.
#[derive(Debug)]
pub struct PrevoutRef<'a> {
    /// Amount that the spent output locked, in satoshis.
    pub amount: u64,
    /// The script that locked the spent output.
    pub script_pubkey: &'a ScriptPubKey,
    /// Id of the transaction that holds the spent output.
    pub txid: &'a BitcoinTxId,
    /// Index of the spent output in that transaction.
    pub output_index: u32,
}

impl TestBitcoinTxInfo {
    /// An input that spends the first output of a transaction with a
    /// random id. With such an input a transaction can be made to look like
    /// a sweep.
    pub fn random_prevout(rng: &mut StdRng) -> (r: TxIn)
        ensures
            r.previous_output.vout == 0,
            r.sequence == 0,
            r.script_sig@.len() == 0,
    {
        TxIn {
            previous_output: OutPoint { txid: fake_hash(rng), vout: 0 },
            script_sig: Vec::new(),
            sequence: 0,
        }
    }

    /// The transaction.
    pub fn tx_ref(&self) -> (r: &Transaction)
        ensures
            *r == self.tx,
    {
        &self.tx
    }

    /// What input `index` spends, if the transaction has such an input and
    /// the output that it spends is given.
    pub fn prevout(&self, index: usize) -> (r: Option<PrevoutRef<'_>>)
        ensures
            r is Some <==> index < self.tx.input.len() && index < self.prevouts.len(),
            r matches Some(p) ==> p.amount == self.prevouts@[index as int].value
                && *p.script_pubkey == self.prevouts@[index as int].script_pubkey && *p.txid
                == self.tx.input@[index as int].previous_output.txid && p.output_index
                == self.tx.input@[index as int].previous_output.vout,
    {
        if index >= self.tx.input.len() || index >= self.prevouts.len() {
            return None;
        }
        let input = &self.tx.input[index];
        let prevout = &self.prevouts[index];
        Some(
            PrevoutRef {
                amount: prevout.value,
                script_pubkey: &prevout.script_pubkey,
                txid: &input.previous_output.txid,
                output_index: input.previous_output.vout,
            },
        )
    }

    /// The transaction as a confirmed transaction: with its id, and with
    /// the spent outputs found.
    pub fn into_tx_info(self) -> (r: BitcoinTxInfo)
        ensures
            r@ == self@.info(),
    {
        let txid = self.tx.compute_txid();
        let mut spent = self.prevouts;
        let ghost given = spent@;
        let mut prevouts: Vec<Option<TxOut>> = Vec::new();
        while spent.len() > 0
            invariant
                spent.len() <= given.len(),
                prevouts.len() + spent.len() == given.len(),
                spent@ == given.skip(prevouts.len() as int),
                forall|j: int| 0 <= j < prevouts.len() ==> prevouts@[j] == Some(given[j]),
            decreases spent.len(),
        {
            let output = spent.remove(0);
            prevouts.push(Some(output));
            assert(spent@ =~= given.skip(prevouts.len() as int));
        }
        let r = BitcoinTxInfo { txid, tx: self.tx, prevouts };
        proof {
            lemma_hash_from(txid);
            assert(r@.prevouts =~= self@.info().prevouts);
        }
        r
    }
}

/// Mathematical value of a list of transactions: each as a confirmed
/// transaction.
pub open spec fn test_infos_view(txs: Seq<TestBitcoinTxInfo>) -> Seq<BitcoinTxInfoView> {
    txs.map_values(|t: TestBitcoinTxInfo| t@.info())
}

} // verus!
