//! Reading a confirmed transaction: which of its outputs and inputs concern
//! the signers, and as what.
//!
//! A coinbase transaction is passed over whole. Of another transaction,
//! an output that pays a custody script of the signers is a donation,
//! unless the transaction has the shape of a sweep: then its first output
//! is the signers' new custody output, and its data output is recorded with
//! it. An input is recorded when the output that it spends was locked by a
//! custody script of the signers, or is that of a deposit request that the
//! store holds.

use super::model::{
    bytes_clone, bytes_eq, scripts_view, BitcoinBlockHash, BitcoinTxId, BitcoinTxRef,
    DepositRequest, DepositRequestView, OutPoint, Row, ScriptPubKey, TxOutput, TxOutputType,
    TxOutputView, TxPrevout, TxPrevoutType, TxPrevoutView,
};
use super::store::{is_deposit_among, names_deposit, Store, StoreView};
use super::table::{
    has_key, inserted, inserted_all, lemma_inserted_all_holds, lemma_inserted_all_keeps,
    lemma_inserted_all_present, lemma_inserted_all_unique, lemma_inserted_keys,
    lemma_inserted_unique, rows_view,
};
use super::transaction::{
    is_op_return, script_is_op_return, Transaction, TransactionView, TxOut, TxOutView,
};
use vstd::prelude::*;

verus! {

/// A confirmed transaction with what the node knows of the outputs that it
/// spends.
#[derive(Debug)]
pub struct BitcoinTxInfo {
    /// The transaction's id.
    pub txid: BitcoinTxId,
    /// The transaction.
    pub tx: Transaction,
    /// The outputs that the inputs spend, in the order of the inputs; `None`
    /// where the node could not find one. An input beyond the end of this
    /// list counts as not found.
    pub prevouts: Vec<Option<TxOut>>,
}

/// Mathematical value of a [`BitcoinTxInfo`].
pub ghost struct BitcoinTxInfoView {
    pub txid: BitcoinTxId,
    pub tx: TransactionView,
    pub prevouts: Seq<Option<TxOutView>>,
}

/// Mathematical value of a list of spent outputs.
pub open spec fn prevouts_view(prevouts: Seq<Option<TxOut>>) -> Seq<Option<TxOutView>> {
    prevouts.map_values(
        |p: Option<TxOut>|
            match p {
                Some(o) => Some(o@),
                None => None,
            },
    )
}

impl View for BitcoinTxInfo {
    type V = BitcoinTxInfoView;

    open spec fn view(&self) -> BitcoinTxInfoView {
        BitcoinTxInfoView { txid: self.txid, tx: self.tx@, prevouts: prevouts_view(self.prevouts@) }
    }
}

impl Clone for BitcoinTxInfo {
    fn clone(&self) -> (r: Self)
        ensures
            r@ == self@,
    {
        let mut prevouts: Vec<Option<TxOut>> = Vec::new();
        let mut i: usize = 0;
        while i < self.prevouts.len()
            invariant
                i <= self.prevouts.len(),
                prevouts.len() == i,
                forall|j: int|
                    0 <= j < i ==> prevouts_view(prevouts@)[j] == prevouts_view(self.prevouts@)[j],
            decreases self.prevouts.len() - i,
        {
            let ghost before = prevouts@;
            let copy = match &self.prevouts[i] {
                Some(output) => Some(output.clone()),
                None => None,
            };
            prevouts.push(copy);
            assert forall|j: int| 0 <= j < i + 1 implies prevouts_view(prevouts@)[j]
                == prevouts_view(self.prevouts@)[j] by {
                if j < i {
                    assert(prevouts@[j] == before[j]);
                    assert(prevouts_view(before)[j] == prevouts_view(self.prevouts@)[j]);
                }
            }
            i += 1;
        }
        assert(prevouts_view(prevouts@) =~= prevouts_view(self.prevouts@));
        BitcoinTxInfo { txid: self.txid, tx: self.tx.clone(), prevouts }
    }
}

/// Mathematical value of a list of transactions.
pub open spec fn infos_view(infos: Seq<BitcoinTxInfo>) -> Seq<BitcoinTxInfoView> {
    infos.map_values(|t: BitcoinTxInfo| t@)
}

impl TransactionView {
    /// Whether the transaction has more inputs or outputs than an index
    /// can name. Such a transaction is passed over.
    pub open spec fn is_malformed(self) -> bool {
        self.input.len() > u32::MAX || self.output.len() > u32::MAX
    }

    /// Whether output `j` can be the data output of a sweep: it comes
    /// after the first output, carries no funds and opens with `OP_RETURN`.
    pub open spec fn is_data_output(self, j: int) -> bool {
        1 <= j < self.output.len() && self.output[j].value == 0 && is_op_return(
            self.output[j].script_pubkey,
        )
    }

    /// The first data output among the outputs before `n`, if there is one.
    pub open spec fn data_output_before(self, n: int) -> Option<int>
        decreases n,
    {
        if n <= 1 {
            None
        } else {
            match self.data_output_before(n - 1) {
                Some(j) => Some(j),
                None => if self.is_data_output(n - 1) {
                    Some(n - 1)
                } else {
                    None
                },
            }
        }
    }

    /// The data output of the transaction if it has the shape of a sweep:
    /// its first output pays one of `scripts`, and a later output is a data
    /// output. The first such output is the one.
    pub open spec fn sweep_data_output(self, scripts: Seq<Seq<u8>>) -> Option<int> {
        if self.output.len() >= 2 && scripts.contains(self.output[0].script_pubkey) {
            self.data_output_before(self.output.len() as int)
        } else {
            None
        }
    }

    /// Whether the transaction has the shape of a sweep.
    pub open spec fn is_sweep(self, scripts: Seq<Seq<u8>>) -> bool {
        self.sweep_data_output(scripts) is Some
    }
}

impl BitcoinTxInfoView {
    /// Whether the transaction is passed over whole.
    pub open spec fn is_skipped(self) -> bool {
        self.tx.is_coinbase() || self.tx.is_malformed()
    }

    /// The row for output `i` as an output of kind `kind`.
    pub open spec fn output_row(self, i: int, kind: TxOutputType) -> TxOutputView {
        TxOutputView {
            txid: self.txid,
            output_index: i as u32,
            amount: self.tx.output[i].value,
            script_pubkey: self.tx.output[i].script_pubkey,
            output_type: kind,
        }
    }

    /// The donations among the outputs before `n`: a row for each that pays
    /// one of `scripts`, in their order.
    pub open spec fn donations_before(self, scripts: Seq<Seq<u8>>, n: int) -> Seq<TxOutputView>
        decreases n,
    {
        if n <= 0 {
            Seq::empty()
        } else {
            let before = self.donations_before(scripts, n - 1);
            if scripts.contains(self.tx.output[n - 1].script_pubkey) {
                before.push(self.output_row(n - 1, TxOutputType::Donation))
            } else {
                before
            }
        }
    }

    /// The rows for the outputs of the transaction, where the signers'
    /// custody scripts are `scripts`.
    pub open spec fn output_rows(self, scripts: Seq<Seq<u8>>) -> Seq<TxOutputView> {
        if self.is_skipped() {
            Seq::empty()
        } else {
            match self.tx.sweep_data_output(scripts) {
                Some(j) => seq![
                    self.output_row(0, TxOutputType::SignersOutput),
                    self.output_row(j, TxOutputType::SignersOpReturn),
                ],
                None => self.donations_before(scripts, self.tx.output.len() as int),
            }
        }
    }

    /// What the output that input `k` spends was to the signers, if
    /// anything: locked by one of `scripts`, or else the output of one of
    /// the deposit requests `deposits`. Nothing where the node could not
    /// find the output.
    pub open spec fn prevout_kind(
        self,
        scripts: Seq<Seq<u8>>,
        deposits: Seq<DepositRequestView>,
        k: int,
    ) -> Option<TxPrevoutType> {
        if 0 <= k < self.prevouts.len() && self.prevouts[k] is Some {
            if scripts.contains(self.prevouts[k].unwrap().script_pubkey) {
                Some(TxPrevoutType::SignersInput)
            } else if names_deposit(deposits, self.tx.input[k].previous_output) {
                Some(TxPrevoutType::Deposit)
            } else {
                None
            }
        } else {
            None
        }
    }

    /// The row for input `k` as an input of kind `kind`.
    pub open spec fn prevout_row(self, k: int, kind: TxPrevoutType) -> TxPrevoutView {
        TxPrevoutView {
            txid: self.txid,
            prevout_txid: self.tx.input[k].previous_output.txid,
            prevout_output_index: self.tx.input[k].previous_output.vout,
            amount: self.prevouts[k].unwrap().value,
            script_pubkey: self.prevouts[k].unwrap().script_pubkey,
            prevout_type: kind,
        }
    }

    /// The rows for the inputs before `n`, in their order.
    pub open spec fn prevouts_before(
        self,
        scripts: Seq<Seq<u8>>,
        deposits: Seq<DepositRequestView>,
        n: int,
    ) -> Seq<TxPrevoutView>
        decreases n,
    {
        if n <= 0 {
            Seq::empty()
        } else {
            let before = self.prevouts_before(scripts, deposits, n - 1);
            match self.prevout_kind(scripts, deposits, n - 1) {
                Some(kind) => before.push(self.prevout_row(n - 1, kind)),
                None => before,
            }
        }
    }

    /// The rows for the inputs of the transaction.
    pub open spec fn prevout_rows(
        self,
        scripts: Seq<Seq<u8>>,
        deposits: Seq<DepositRequestView>,
    ) -> Seq<TxPrevoutView> {
        if self.is_skipped() {
            Seq::empty()
        } else {
            self.prevouts_before(scripts, deposits, self.tx.input.len() as int)
        }
    }
}

/// Whether `script` is one of `scripts`.
pub fn is_signer_script(scripts: &Vec<ScriptPubKey>, script: &ScriptPubKey) -> (r: bool)
    ensures
        r == scripts_view(scripts@).contains(script@),
{
    let mut i: usize = 0;
    while i < scripts.len()
        invariant
            i <= scripts.len(),
            forall|j: int| 0 <= j < i ==> scripts_view(scripts@)[j] != script@,
        decreases scripts.len() - i,
    {
        if bytes_eq(&scripts[i], script) {
            assert(scripts_view(scripts@)[i as int] == script@);
            return true;
        }
        i += 1;
    }
    false
}

impl BitcoinTxInfo {
    /// Whether the transaction is passed over whole: it is a coinbase
    /// transaction, or has more inputs or outputs than an index can name.
    pub fn is_skipped(&self) -> (r: bool)
        ensures
            r == self@.is_skipped(),
    {
        self.tx.is_coinbase() || self.tx.input.len() > u32::MAX as usize || self.tx.output.len()
            > u32::MAX as usize
    }

    /// The place of the data output, if the transaction has the shape of a
    /// sweep.
    pub fn sweep_data_output(&self, scripts: &Vec<ScriptPubKey>) -> (r: Option<usize>)
        ensures
            match self@.tx.sweep_data_output(scripts_view(scripts@)) {
                Some(j) => r == Some(j as usize) && 1 <= j < self.tx.output.len(),
                None => r is None,
            },
    {
        let n = self.tx.output.len();
        if n < 2 {
            return None;
        }
        assert(self@.tx.output[0] == self.tx.output@[0]@);
        if !is_signer_script(scripts, &self.tx.output[0].script_pubkey) {
            return None;
        }
        let mut j: usize = 1;
        while j < n
            invariant
                1 <= j <= n,
                2 <= n == self.tx.output.len(),
                scripts_view(scripts@).contains(self@.tx.output[0].script_pubkey),
                self@.tx.data_output_before(j as int) is None,
            decreases n - j,
        {
            let output = &self.tx.output[j];
            assert(self@.tx.output[j as int] == output@);
            if output.value == 0 && script_is_op_return(&output.script_pubkey) {
                proof {
                    assert(self@.tx.output.len() == n);
                    lemma_data_output_found(self@.tx, j as int, n as int);
                }
                return Some(j);
            }
            j += 1;
        }
        None
    }

    /// The row for output `i` as an output of kind `kind`.
    fn output_row(&self, i: usize, kind: TxOutputType) -> (r: TxOutput)
        requires
            i < self.tx.output.len(),
            i <= u32::MAX,
        ensures
            r@ == self@.output_row(i as int, kind),
    {
        let output = &self.tx.output[i];
        assert(self@.tx.output[i as int] == output@);
        TxOutput {
            txid: self.txid,
            output_index: i as u32,
            amount: output.value,
            script_pubkey: bytes_clone(&output.script_pubkey),
            output_type: kind,
        }
    }

    /// The rows for the outputs of the transaction, where the signers'
    /// custody scripts are `scripts`: none for a transaction that is passed
    /// over; for a sweep, its first output as the signers' output and its
    /// data output; for any other transaction, a donation for each output
    /// that pays one of the scripts.
    pub fn to_tx_outputs(&self, scripts: &Vec<ScriptPubKey>) -> (rows: Vec<TxOutput>)
        ensures
            rows_view(rows@) == self@.output_rows(scripts_view(scripts@)),
    {
        let mut rows: Vec<TxOutput> = Vec::new();
        if self.is_skipped() {
            assert(rows_view(rows@) =~= Seq::empty());
            return rows;
        }
        match self.sweep_data_output(scripts) {
            Some(j) => {
                rows.push(self.output_row(0, TxOutputType::SignersOutput));
                rows.push(self.output_row(j, TxOutputType::SignersOpReturn));
                assert(rows_view(rows@) =~= seq![
                    self@.output_row(0, TxOutputType::SignersOutput),
                    self@.output_row(j as int, TxOutputType::SignersOpReturn),
                ]);
            },
            None => {
                let n = self.tx.output.len();
                let mut i: usize = 0;
                assert(rows_view(rows@) =~= Seq::empty());
                while i < n
                    invariant
                        i <= n,
                        n == self.tx.output.len(),
                        n <= u32::MAX,
                        rows_view(rows@) == self@.donations_before(
                            scripts_view(scripts@),
                            i as int,
                        ),
                    decreases n - i,
                {
                    let ghost before = rows@;
                    assert(self@.tx.output[i as int] == self.tx.output@[i as int]@);
                    if is_signer_script(scripts, &self.tx.output[i].script_pubkey) {
                        rows.push(self.output_row(i, TxOutputType::Donation));
                        assert(rows_view(rows@) =~= rows_view(before).push(
                            self@.output_row(i as int, TxOutputType::Donation),
                        ));
                    }
                    i += 1;
                }
            },
        }
        rows
    }

    /// The rows for the inputs of the transaction, where the signers'
    /// custody scripts are `scripts` and the deposit requests that are
    /// known are `deposits`: none for a transaction that is passed over;
    /// else one for each input whose spent output the node found and which
    /// a custody script locked or a deposit request names.
    pub fn to_inputs(&self, scripts: &Vec<ScriptPubKey>, deposits: &Vec<DepositRequest>) -> (rows:
        Vec<TxPrevout>)
        ensures
            rows_view(rows@) == self@.prevout_rows(scripts_view(scripts@), rows_view(deposits@)),
    {
        let mut rows: Vec<TxPrevout> = Vec::new();
        assert(rows_view(rows@) =~= Seq::empty());
        if self.is_skipped() {
            return rows;
        }
        let n = self.tx.input.len();
        let mut k: usize = 0;
        while k < n
            invariant
                k <= n,
                n == self.tx.input.len(),
                rows_view(rows@) == self@.prevouts_before(
                    scripts_view(scripts@),
                    rows_view(deposits@),
                    k as int,
                ),
            decreases n - k,
        {
            let ghost before = rows@;
            let input = &self.tx.input[k];
            assert(self@.tx.input[k as int] == input@);
            if k < self.prevouts.len() {
                assert(self@.prevouts[k as int] == prevouts_view(self.prevouts@)[k as int]);
                match &self.prevouts[k] {
                    Some(spent) => {
                        let kind = if is_signer_script(scripts, &spent.script_pubkey) {
                            Some(TxPrevoutType::SignersInput)
                        } else if is_deposit_among(deposits, &input.previous_output) {
                            Some(TxPrevoutType::Deposit)
                        } else {
                            None
                        };
                        match kind {
                            Some(kind) => {
                                rows.push(
                                    TxPrevout {
                                        txid: self.txid,
                                        prevout_txid: input.previous_output.txid,
                                        prevout_output_index: input.previous_output.vout,
                                        amount: spent.value,
                                        script_pubkey: bytes_clone(&spent.script_pubkey),
                                        prevout_type: kind,
                                    },
                                );
                                assert(rows_view(rows@) =~= rows_view(before).push(
                                    self@.prevout_row(k as int, kind),
                                ));
                            },
                            None => {},
                        }
                    },
                    None => {},
                }
            }
            k += 1;
        }
        rows
    }
}

/// A data output at `j` with none before it is the first data output
/// before any `n` beyond it.
proof fn lemma_data_output_found(tx: TransactionView, j: int, n: int)
    requires
        tx.is_data_output(j),
        tx.data_output_before(j) is None,
        j < n,
    ensures
        tx.data_output_before(n) == Some(j),
    decreases n - j,
{
    if n > j + 1 {
        lemma_data_output_found(tx, j, n - 1);
    }
}

/// For each of the transactions `infos`, that it is part of the block
/// `block_hash`.
pub open spec fn memberships(infos: Seq<BitcoinTxInfoView>, block_hash: BitcoinBlockHash) -> Seq<
    BitcoinTxRef,
> {
    infos.map_values(|t: BitcoinTxInfoView| BitcoinTxRef { txid: t.txid, block_hash })
}

/// The rows for the outputs of the transactions `infos`, transaction after
/// transaction.
pub open spec fn all_output_rows(infos: Seq<BitcoinTxInfoView>, scripts: Seq<Seq<u8>>) -> Seq<
    TxOutputView,
>
    decreases infos.len(),
{
    if infos.len() == 0 {
        Seq::empty()
    } else {
        all_output_rows(infos.drop_last(), scripts) + infos.last().output_rows(scripts)
    }
}

/// The rows for the inputs of the transactions `infos`, transaction after
/// transaction.
pub open spec fn all_prevout_rows(
    infos: Seq<BitcoinTxInfoView>,
    scripts: Seq<Seq<u8>>,
    deposits: Seq<DepositRequestView>,
) -> Seq<TxPrevoutView>
    decreases infos.len(),
{
    if infos.len() == 0 {
        Seq::empty()
    } else {
        all_prevout_rows(infos.drop_last(), scripts, deposits) + infos.last().prevout_rows(
            scripts,
            deposits,
        )
    }
}

impl StoreView {
    /// The store after the transaction `info` of the block `block_hash` was
    /// read: as before if nothing of the transaction concerns the signers;
    /// else with the transaction's membership in the block and with its
    /// rows written.
    pub open spec fn with_tx_classified(
        self,
        block_hash: BitcoinBlockHash,
        scripts: Seq<Seq<u8>>,
        info: BitcoinTxInfoView,
    ) -> StoreView {
        let outputs = info.output_rows(scripts);
        let prevouts = info.prevout_rows(scripts, self.deposit_requests);
        if outputs.len() == 0 && prevouts.len() == 0 {
            self
        } else {
            StoreView {
                bitcoin_transactions: inserted::<BitcoinTxRef>(
                    self.bitcoin_transactions,
                    BitcoinTxRef { txid: info.txid, block_hash },
                ),
                tx_outputs: inserted_all::<TxOutput>(self.tx_outputs, outputs),
                tx_prevouts: inserted_all::<TxPrevout>(self.tx_prevouts, prevouts),
                ..self
            }
        }
    }

    /// The store after the transactions `infos` of the block `block_hash`
    /// were read, first to last.
    pub open spec fn with_block_classified(
        self,
        block_hash: BitcoinBlockHash,
        scripts: Seq<Seq<u8>>,
        infos: Seq<BitcoinTxInfoView>,
    ) -> StoreView
        decreases infos.len(),
    {
        if infos.len() == 0 {
            self
        } else {
            self.with_block_classified(block_hash, scripts, infos.drop_last()).with_tx_classified(
                block_hash,
                scripts,
                infos.last(),
            )
        }
    }

    /// Whether the store holds the keys of all that reading the transaction
    /// `info` of the block `block_hash` would write.
    pub open spec fn holds_tx(
        self,
        block_hash: BitcoinBlockHash,
        scripts: Seq<Seq<u8>>,
        info: BitcoinTxInfoView,
    ) -> bool {
        let outputs = info.output_rows(scripts);
        let prevouts = info.prevout_rows(scripts, self.deposit_requests);
        &&& forall|i: int|
            0 <= i < outputs.len() ==> has_key::<TxOutput>(
                self.tx_outputs,
                TxOutput::key_of(#[trigger] outputs[i]),
            )
        &&& forall|i: int|
            0 <= i < prevouts.len() ==> has_key::<TxPrevout>(
                self.tx_prevouts,
                TxPrevout::key_of(#[trigger] prevouts[i]),
            )
        &&& outputs.len() > 0 || prevouts.len() > 0 ==> has_key::<BitcoinTxRef>(
            self.bitcoin_transactions,
            BitcoinTxRef { txid: info.txid, block_hash },
        )
    }

    /// Whether `later` holds every key of the three tables of classified
    /// data that this store holds, and the same deposit requests.
    pub open spec fn kept_by(self, later: StoreView) -> bool {
        &&& later.deposit_requests == self.deposit_requests
        &&& forall|k: OutPoint|
            has_key::<TxOutput>(self.tx_outputs, k) ==> has_key::<TxOutput>(later.tx_outputs, k)
        &&& forall|k: (BitcoinTxId, OutPoint)|
            has_key::<TxPrevout>(self.tx_prevouts, k) ==> has_key::<TxPrevout>(
                later.tx_prevouts,
                k,
            )
        &&& forall|k: BitcoinTxRef|
            has_key::<BitcoinTxRef>(self.bitcoin_transactions, k) ==> has_key::<BitcoinTxRef>(
                later.bitcoin_transactions,
                k,
            )
    }
}

/// Reads the transactions of the confirmed block `block_hash`, first to
/// last, and writes to `store` what concerns the signers, whose custody
/// scripts, current and past, are `signer_scripts`: for each transaction
/// that has a classified output or input, its membership in the block and
/// a row for each such output and input. A row whose key the store holds
/// is not written again.
pub fn classify_and_store(
    store: &mut Store,
    block_hash: BitcoinBlockHash,
    signer_scripts: &Vec<ScriptPubKey>,
    transactions: &Vec<BitcoinTxInfo>,
)
    ensures
        final(store)@ == old(store)@.with_block_classified(
            block_hash,
            scripts_view(signer_scripts@),
            infos_view(transactions@),
        ),
        old(store)@.wf() ==> final(store)@.wf(),
{
    let ghost before = store@;
    let ghost scripts = scripts_view(signer_scripts@);
    let ghost infos = infos_view(transactions@);
    let mut i: usize = 0;
    assert(infos.take(0) =~= Seq::empty());
    while i < transactions.len()
        invariant
            i <= transactions.len(),
            scripts == scripts_view(signer_scripts@),
            infos == infos_view(transactions@),
            store@ == before.with_block_classified(block_hash, scripts, infos.take(i as int)),
            before.wf() ==> store@.wf(),
        decreases transactions.len() - i,
    {
        proof {
            assert(infos.take(i + 1).drop_last() =~= infos.take(i as int));
            assert(infos.take(i + 1).last() == transactions@[i as int]@);
        }
        let info = &transactions[i];
        let outputs = info.to_tx_outputs(signer_scripts);
        let prevouts = info.to_inputs(signer_scripts, store.deposit_requests());
        if outputs.len() > 0 || prevouts.len() > 0 {
            let ghost at = store@;
            store.write_bitcoin_transaction(&BitcoinTxRef { txid: info.txid, block_hash });
            store.write_tx_outputs(&outputs);
            store.write_tx_prevouts(&prevouts);
            assert(store@ == at.with_tx_classified(block_hash, scripts, info@));
        }
        i += 1;
    }
    assert(infos.take(transactions.len() as int) =~= infos);
}

/// Nothing is recorded of a coinbase transaction, whatever it pays and to
/// whom: it has no rows, and reading it leaves the store as it is.
pub proof fn law_coinbase_is_passed_over(
    store: StoreView,
    block_hash: BitcoinBlockHash,
    scripts: Seq<Seq<u8>>,
    info: BitcoinTxInfoView,
)
    requires
        info.tx.is_coinbase(),
    ensures
        info.output_rows(scripts) == Seq::<TxOutputView>::empty(),
        info.prevout_rows(scripts, store.deposit_requests) == Seq::<TxPrevoutView>::empty(),
        store.with_tx_classified(block_hash, scripts, info) == store,
{
}

/// The donations of a transaction in which output `i` alone pays the
/// signers.
proof fn lemma_one_donation(info: BitcoinTxInfoView, scripts: Seq<Seq<u8>>, i: int, n: int)
    requires
        0 <= i < info.tx.output.len(),
        0 <= n <= info.tx.output.len(),
        forall|j: int|
            0 <= j < info.tx.output.len() ==> (scripts.contains(
                (#[trigger] info.tx.output[j]).script_pubkey,
            ) <==> j == i),
    ensures
        info.donations_before(scripts, n) == if n <= i {
            Seq::<TxOutputView>::empty()
        } else {
            seq![info.output_row(i, TxOutputType::Donation)]
        },
    decreases n,
{
    if n > 0 {
        lemma_one_donation(info, scripts, i, n - 1);
        assert(scripts.contains(info.tx.output[n - 1].script_pubkey) <==> n - 1 == i);
        if n - 1 == i {
            assert(Seq::<TxOutputView>::empty().push(info.output_row(i, TxOutputType::Donation))
                =~= seq![info.output_row(i, TxOutputType::Donation)]);
        }
    }
}

/// The donations of a transaction name the transaction.
proof fn lemma_donations_name_tx(info: BitcoinTxInfoView, scripts: Seq<Seq<u8>>, n: int, i: int)
    requires
        0 <= i < info.donations_before(scripts, n).len(),
    ensures
        info.donations_before(scripts, n)[i].txid == info.txid,
        info.donations_before(scripts, n)[i].output_type == TxOutputType::Donation,
    decreases n,
{
    if n > 0 {
        let before = info.donations_before(scripts, n - 1);
        if i < before.len() {
            lemma_donations_name_tx(info, scripts, n - 1, i);
        }
    }
}

/// The rows for inputs name the transaction.
proof fn lemma_prevouts_name_tx(
    info: BitcoinTxInfoView,
    scripts: Seq<Seq<u8>>,
    deposits: Seq<DepositRequestView>,
    n: int,
    i: int,
)
    requires
        0 <= i < info.prevouts_before(scripts, deposits, n).len(),
    ensures
        info.prevouts_before(scripts, deposits, n)[i].txid == info.txid,
    decreases n,
{
    if n > 0 {
        let before = info.prevouts_before(scripts, deposits, n - 1);
        if i < before.len() {
            lemma_prevouts_name_tx(info, scripts, deposits, n - 1, i);
        }
    }
}

/// Every row of a transaction names the transaction; and a transaction
/// has either donations alone among its outputs, or the two outputs of a
/// sweep.
pub proof fn law_rows_name_their_transaction(
    info: BitcoinTxInfoView,
    scripts: Seq<Seq<u8>>,
    deposits: Seq<DepositRequestView>,
)
    ensures
        forall|i: int|
            0 <= i < info.output_rows(scripts).len() ==> (
            #[trigger] info.output_rows(scripts)[i]).txid == info.txid,
        forall|i: int|
            0 <= i < info.prevout_rows(scripts, deposits).len() ==> (#[trigger] info.prevout_rows(
                scripts,
                deposits,
            )[i]).txid == info.txid,
        info.tx.is_sweep(scripts) || forall|i: int|
            0 <= i < info.output_rows(scripts).len() ==> (
            #[trigger] info.output_rows(scripts)[i]).output_type == TxOutputType::Donation,
{
    let outputs = info.output_rows(scripts);
    assert forall|i: int| 0 <= i < outputs.len() implies (#[trigger] outputs[i]).txid
        == info.txid && (info.tx.is_sweep(scripts) || outputs[i].output_type
        == TxOutputType::Donation) by {
        if !info.is_skipped() && !info.tx.is_sweep(scripts) {
            lemma_donations_name_tx(info, scripts, info.tx.output.len() as int, i);
        }
    }
    let prevouts = info.prevout_rows(scripts, deposits);
    assert forall|i: int| 0 <= i < prevouts.len() implies (#[trigger] prevouts[i]).txid
        == info.txid by {
        lemma_prevouts_name_tx(info, scripts, deposits, info.tx.input.len() as int, i);
    }
}

/// A transaction that sends funds to a custody script of the signers in
/// one output, and is neither a coinbase transaction nor of the shape of a
/// sweep, gives exactly one row: a donation with the transaction's id, the
/// output's index and the output's amount.
pub proof fn law_payment_to_signers_is_one_donation(
    info: BitcoinTxInfoView,
    scripts: Seq<Seq<u8>>,
    i: int,
)
    requires
        !info.is_skipped(),
        !info.tx.is_sweep(scripts),
        0 <= i < info.tx.output.len(),
        forall|j: int|
            0 <= j < info.tx.output.len() ==> (scripts.contains(
                (#[trigger] info.tx.output[j]).script_pubkey,
            ) <==> j == i),
    ensures
        info.output_rows(scripts) == seq![
            TxOutputView {
                txid: info.txid,
                output_index: i as u32,
                amount: info.tx.output[i].value,
                script_pubkey: info.tx.output[i].script_pubkey,
                output_type: TxOutputType::Donation,
            },
        ],
        i as u32 == i,
{
    lemma_one_donation(info, scripts, i, info.tx.output.len() as int);
}

/// Reading a transaction keeps what the store held, and leaves the store
/// holding the keys of all that it writes.
proof fn lemma_tx_classified(
    store: StoreView,
    block_hash: BitcoinBlockHash,
    scripts: Seq<Seq<u8>>,
    info: BitcoinTxInfoView,
)
    ensures
        store.kept_by(store.with_tx_classified(block_hash, scripts, info)),
        store.with_tx_classified(block_hash, scripts, info).holds_tx(block_hash, scripts, info),
        store.wf() ==> store.with_tx_classified(block_hash, scripts, info).wf(),
{
    let after = store.with_tx_classified(block_hash, scripts, info);
    let outputs = info.output_rows(scripts);
    let prevouts = info.prevout_rows(scripts, store.deposit_requests);
    let tx = BitcoinTxRef { txid: info.txid, block_hash };
    if outputs.len() > 0 || prevouts.len() > 0 {
        assert forall|k: OutPoint| has_key::<TxOutput>(store.tx_outputs, k) implies has_key::<
            TxOutput,
        >(after.tx_outputs, k) by {
            lemma_inserted_all_keeps::<TxOutput>(store.tx_outputs, outputs, k);
        }
        assert forall|k: (BitcoinTxId, OutPoint)|
            has_key::<TxPrevout>(store.tx_prevouts, k) implies has_key::<TxPrevout>(
            after.tx_prevouts,
            k,
        ) by {
            lemma_inserted_all_keeps::<TxPrevout>(store.tx_prevouts, prevouts, k);
        }
        assert forall|k: BitcoinTxRef|
            has_key::<BitcoinTxRef>(store.bitcoin_transactions, k) implies has_key::<BitcoinTxRef>(
            after.bitcoin_transactions,
            k,
        ) by {
            lemma_inserted_keys::<BitcoinTxRef>(store.bitcoin_transactions, tx, k);
        }
        assert forall|i: int| 0 <= i < outputs.len() implies has_key::<TxOutput>(
            after.tx_outputs,
            TxOutput::key_of(#[trigger] outputs[i]),
        ) by {
            lemma_inserted_all_holds::<TxOutput>(store.tx_outputs, outputs, i);
        }
        assert forall|i: int| 0 <= i < prevouts.len() implies has_key::<TxPrevout>(
            after.tx_prevouts,
            TxPrevout::key_of(#[trigger] prevouts[i]),
        ) by {
            lemma_inserted_all_holds::<TxPrevout>(store.tx_prevouts, prevouts, i);
        }
        lemma_inserted_keys::<BitcoinTxRef>(store.bitcoin_transactions, tx, tx);
        if store.wf() {
            lemma_inserted_all_unique::<TxOutput>(store.tx_outputs, outputs);
            lemma_inserted_all_unique::<TxPrevout>(store.tx_prevouts, prevouts);
            lemma_inserted_unique::<BitcoinTxRef>(store.bitcoin_transactions, tx);
        }
    }
}

/// A store that holds what an earlier one held, and that earlier one held
/// the keys of a transaction's rows, holds them too.
proof fn lemma_holds_tx_kept(
    store: StoreView,
    later: StoreView,
    block_hash: BitcoinBlockHash,
    scripts: Seq<Seq<u8>>,
    info: BitcoinTxInfoView,
)
    requires
        store.kept_by(later),
        store.holds_tx(block_hash, scripts, info),
    ensures
        later.holds_tx(block_hash, scripts, info),
{
    let outputs = info.output_rows(scripts);
    let prevouts = info.prevout_rows(scripts, store.deposit_requests);
    assert forall|i: int| 0 <= i < outputs.len() implies has_key::<TxOutput>(
        later.tx_outputs,
        TxOutput::key_of(#[trigger] outputs[i]),
    ) by {
        assert(has_key::<TxOutput>(store.tx_outputs, TxOutput::key_of(outputs[i])));
    }
    assert forall|i: int| 0 <= i < prevouts.len() implies has_key::<TxPrevout>(
        later.tx_prevouts,
        TxPrevout::key_of(#[trigger] prevouts[i]),
    ) by {
        assert(has_key::<TxPrevout>(store.tx_prevouts, TxPrevout::key_of(prevouts[i])));
    }
}

/// Reading a block keeps what the store held, and leaves the store holding
/// the keys of all that reading any of its transactions writes.
proof fn lemma_block_classified(
    store: StoreView,
    block_hash: BitcoinBlockHash,
    scripts: Seq<Seq<u8>>,
    infos: Seq<BitcoinTxInfoView>,
)
    ensures
        store.kept_by(store.with_block_classified(block_hash, scripts, infos)),
        forall|i: int|
            0 <= i < infos.len() ==> store.with_block_classified(
                block_hash,
                scripts,
                infos,
            ).holds_tx(block_hash, scripts, #[trigger] infos[i]),
        store.wf() ==> store.with_block_classified(block_hash, scripts, infos).wf(),
    decreases infos.len(),
{
    if infos.len() > 0 {
        let front = infos.drop_last();
        let middle = store.with_block_classified(block_hash, scripts, front);
        let after = store.with_block_classified(block_hash, scripts, infos);
        lemma_block_classified(store, block_hash, scripts, front);
        lemma_tx_classified(middle, block_hash, scripts, infos.last());
        assert forall|i: int| 0 <= i < infos.len() implies after.holds_tx(
            block_hash,
            scripts,
            #[trigger] infos[i],
        ) by {
            if i < front.len() {
                assert(front[i] == infos[i]);
                lemma_holds_tx_kept(middle, after, block_hash, scripts, infos[i]);
            }
        }
    }
}

/// Reading a transaction whose rows' keys the store holds changes nothing.
proof fn lemma_held_tx_changes_nothing(
    store: StoreView,
    block_hash: BitcoinBlockHash,
    scripts: Seq<Seq<u8>>,
    info: BitcoinTxInfoView,
)
    requires
        store.holds_tx(block_hash, scripts, info),
    ensures
        store.with_tx_classified(block_hash, scripts, info) == store,
{
    let outputs = info.output_rows(scripts);
    let prevouts = info.prevout_rows(scripts, store.deposit_requests);
    lemma_inserted_all_present::<TxOutput>(store.tx_outputs, outputs);
    lemma_inserted_all_present::<TxPrevout>(store.tx_prevouts, prevouts);
}

/// Reading transactions whose rows' keys the store all holds changes
/// nothing.
proof fn lemma_held_block_changes_nothing(
    store: StoreView,
    block_hash: BitcoinBlockHash,
    scripts: Seq<Seq<u8>>,
    infos: Seq<BitcoinTxInfoView>,
)
    requires
        forall|i: int|
            0 <= i < infos.len() ==> store.holds_tx(block_hash, scripts, #[trigger] infos[i]),
    ensures
        store.with_block_classified(block_hash, scripts, infos) == store,
    decreases infos.len(),
{
    if infos.len() > 0 {
        let front = infos.drop_last();
        assert forall|i: int| 0 <= i < front.len() implies store.holds_tx(
            block_hash,
            scripts,
            #[trigger] front[i],
        ) by {
            assert(front[i] == infos[i]);
        }
        lemma_held_block_changes_nothing(store, block_hash, scripts, front);
        lemma_held_tx_changes_nothing(store, block_hash, scripts, infos.last());
    }
}

/// Reading a block a second time changes nothing: no row is written twice.
/// And reading a block keeps the keys of every table unique.
pub proof fn law_reprocessing_changes_nothing(
    store: StoreView,
    block_hash: BitcoinBlockHash,
    scripts: Seq<Seq<u8>>,
    infos: Seq<BitcoinTxInfoView>,
)
    ensures
        store.with_block_classified(block_hash, scripts, infos).with_block_classified(
            block_hash,
            scripts,
            infos,
        ) == store.with_block_classified(block_hash, scripts, infos),
        store.wf() ==> store.with_block_classified(block_hash, scripts, infos).wf(),
{
    lemma_block_classified(store, block_hash, scripts, infos);
    lemma_held_block_changes_nothing(
        store.with_block_classified(block_hash, scripts, infos),
        block_hash,
        scripts,
        infos,
    );
}

} // verus!
