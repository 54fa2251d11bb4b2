//! The rows of test data, and what is done with them.

use super::tx_info::{test_infos_view, TestBitcoinTxInfo};
use crate::signer::classify::{all_output_rows, all_prevout_rows, memberships};
use crate::signer::model::{
    scripts_view, BitcoinBlock, BitcoinBlockHash, BitcoinBlockRef, BitcoinTxRef,
    DepositRequest, DepositRequestView, DepositSigner, Row, ScriptPubKey, StacksBlock,
    StacksBlockHash, TxOutput, TxOutputView, TxPrevout, TxPrevoutView, WithdrawalRequest,
    WithdrawalRequestView, WithdrawalSigner,
};
use crate::signer::store::{first_block, lemma_first_block_found, Store, StoreView};
use crate::signer::table::{inserted_all, rows_view};
use vstd::prelude::*;

verus! {

/// The height that a block's parent is taken to have when nothing is known
/// of the parent.
pub const UNKNOWN_PARENT_HEIGHT: u64 = 1337;

/// The rows of `rows` that are not among `removed`, in their order.
pub open spec fn difference<V>(rows: Seq<V>, removed: Seq<V>) -> Seq<V> {
    rows.filter(|v: V| !removed.contains(v))
}

/// Whether `rows` holds a row with the values of `row`.
pub fn contains_row<T: Row>(rows: &Vec<T>, row: &T) -> (r: bool)
    ensures
        r == rows_view(rows@).contains(row@),
{
    let mut i: usize = 0;
    while i < rows.len()
        invariant
            i <= rows.len(),
            forall|j: int| 0 <= j < i ==> rows_view(rows@)[j] != row@,
        decreases rows.len() - i,
    {
        if rows[i].same(row) {
            assert(rows_view(rows@)[i as int] == row@);
            return true;
        }
        i += 1;
    }
    false
}

/// Removes from `subtrahend` the rows that are among `minuend`.
pub fn vec_diff<T: Row>(subtrahend: &mut Vec<T>, minuend: &Vec<T>)
    ensures
        rows_view(final(subtrahend)@) == difference(
            rows_view(old(subtrahend)@),
            rows_view(minuend@),
        ),
{
    let ghost given = subtrahend@;
    let ghost removed = rows_view(minuend@);
    let ghost mut seen: int = 0;
    let mut i: usize = 0;
    proof {
        reveal(Seq::filter);
        assert(rows_view(given).take(0) =~= Seq::empty());
        assert(rows_view(subtrahend@.take(0)) =~= Seq::empty());
        assert(subtrahend@.skip(0) =~= given.skip(0));
    }
    while i < subtrahend.len()
        invariant
            removed == rows_view(minuend@),
            0 <= i <= subtrahend.len(),
            0 <= seen <= given.len(),
            subtrahend.len() - i == given.len() - seen,
            subtrahend@.skip(i as int) == given.skip(seen),
            rows_view(subtrahend@.take(i as int)) == difference(
                rows_view(given).take(seen),
                removed,
            ),
        decreases subtrahend.len() - i,
    {
        let ghost before = subtrahend@;
        proof {
            reveal(Seq::filter);
            assert(before[i as int] == before.skip(i as int)[0]);
            assert(given[seen] == given.skip(seen)[0]);
            assert(rows_view(given).take(seen + 1).drop_last() =~= rows_view(given).take(seen));
            assert(rows_view(given).take(seen + 1).last() == given[seen]@);
        }
        if contains_row(minuend, &subtrahend[i]) {
            subtrahend.remove(i);
            proof {
                assert(subtrahend@.take(i as int) =~= before.take(i as int));
                assert forall|j: int| 0 <= j < given.len() - seen - 1 implies subtrahend@.skip(
                    i as int,
                )[j] == given.skip(seen + 1)[j] by {
                    assert(before.skip(i as int)[j + 1] == given.skip(seen)[j + 1]);
                }
                assert(subtrahend@.skip(i as int) =~= given.skip(seen + 1));
            }
        } else {
            i += 1;
            proof {
                assert(rows_view(before.take(i as int)) =~= rows_view(
                    before.take(i - 1),
                ).push(before[i - 1]@));
                assert forall|j: int| 0 <= j < given.len() - seen - 1 implies before.skip(
                    i as int,
                )[j] == given.skip(seen + 1)[j] by {
                    assert(before.skip(i - 1)[j + 1] == given.skip(seen)[j + 1]);
                }
                assert(before.skip(i as int) =~= given.skip(seen + 1));
            }
        }
        proof {
            seen = seen + 1;
        }
    }
    proof {
        assert(subtrahend@.take(i as int) =~= subtrahend@);
        assert(rows_view(given).take(seen) =~= rows_view(given));
    }
}

impl BitcoinBlockRef {
    /// The block `block` by hash and height.
    pub fn summarize(block: &BitcoinBlock) -> (r: Self)
        ensures
            r == (BitcoinBlockRef {
                block_hash: block.block_hash,
                block_height: block.block_height,
            }),
    {
        BitcoinBlockRef { block_hash: block.block_hash, block_height: block.block_height }
    }

    /// A parent for `block` of which nothing is known but the hash: at a
    /// made-up height.
    pub fn hallucinate_parent(block: &BitcoinBlock) -> (r: Self)
        ensures
            r == (BitcoinBlockRef {
                block_hash: block.parent_hash,
                block_height: UNKNOWN_PARENT_HEIGHT,
            }),
    {
        BitcoinBlockRef { block_hash: block.parent_hash, block_height: UNKNOWN_PARENT_HEIGHT }
    }
}

/// A Stacks block named by hash and height.
#[derive(Clone, Copy, Debug)]
pub struct StacksBlockSummary {
    /// The block's hash.
    pub block_hash: StacksBlockHash,
    /// The block's height.
    pub block_height: u64,
}

impl StacksBlockSummary {
    /// The block `block` by hash and height.
    pub fn summarize(block: &StacksBlock) -> (r: Self)
        ensures
            r == (StacksBlockSummary {
                block_hash: block.block_hash,
                block_height: block.block_height,
            }),
    {
        StacksBlockSummary { block_hash: block.block_hash, block_height: block.block_height }
    }

    /// A parent for `block` of which nothing is known but the hash: at a
    /// made-up height.
    pub fn hallucinate_parent(block: &StacksBlock) -> (r: Self)
        ensures
            r == (StacksBlockSummary {
                block_hash: block.parent_hash,
                block_height: UNKNOWN_PARENT_HEIGHT,
            }),
    {
        StacksBlockSummary { block_hash: block.parent_hash, block_height: UNKNOWN_PARENT_HEIGHT }
    }
}

/// How much test data to make.
#[derive(Clone, Copy, Debug)]
pub struct Params {
    /// The number of Bitcoin blocks.
    pub num_bitcoin_blocks: usize,
    /// The number of Stacks blocks for each Bitcoin block.
    pub num_stacks_blocks_per_bitcoin_block: usize,
    /// The number of deposit requests for each Bitcoin block.
    pub num_deposit_requests_per_block: usize,
    /// The number of withdrawal requests for each Bitcoin block.
    pub num_withdraw_requests_per_block: usize,
    /// The number of signers that decide on each request.
    pub num_signers_per_request: usize,
    /// Whether each Bitcoin block is the child of the one made before it.
    pub consecutive_blocks: bool,
}

/// Rows to fill a store with.
#[derive(Debug)]
pub struct TestData {
    /// Bitcoin blocks.
    pub bitcoin_blocks: Vec<BitcoinBlock>,
    /// Stacks blocks.
    pub stacks_blocks: Vec<StacksBlock>,
    /// Deposit requests.
    pub deposit_requests: Vec<DepositRequest>,
    /// Withdrawal requests.
    pub withdraw_requests: Vec<WithdrawalRequest>,
    /// Which transaction is part of which Bitcoin block.
    pub bitcoin_transactions: Vec<BitcoinTxRef>,
    /// The signers' decisions on deposit requests.
    pub deposit_signers: Vec<DepositSigner>,
    /// The signers' decisions on withdrawal requests.
    pub withdraw_signers: Vec<WithdrawalSigner>,
    /// Donations and the outputs of sweeps.
    pub tx_outputs: Vec<TxOutput>,
    /// The outputs that sweeps spend.
    pub tx_prevouts: Vec<TxPrevout>,
}

/// Mathematical value of a [`TestData`].
pub ghost struct TestDataView {
    pub bitcoin_blocks: Seq<BitcoinBlock>,
    pub stacks_blocks: Seq<StacksBlock>,
    pub deposit_requests: Seq<DepositRequestView>,
    pub withdraw_requests: Seq<WithdrawalRequestView>,
    pub bitcoin_transactions: Seq<BitcoinTxRef>,
    pub deposit_signers: Seq<DepositSigner>,
    pub withdraw_signers: Seq<WithdrawalSigner>,
    pub tx_outputs: Seq<TxOutputView>,
    pub tx_prevouts: Seq<TxPrevoutView>,
}

impl TestDataView {
    /// No rows.
    pub open spec fn empty() -> TestDataView {
        TestDataView {
            bitcoin_blocks: Seq::empty(),
            stacks_blocks: Seq::empty(),
            deposit_requests: Seq::empty(),
            withdraw_requests: Seq::empty(),
            bitcoin_transactions: Seq::empty(),
            deposit_signers: Seq::empty(),
            withdraw_signers: Seq::empty(),
            tx_outputs: Seq::empty(),
            tx_prevouts: Seq::empty(),
        }
    }

    /// These rows followed, kind by kind, by those of `more`.
    pub open spec fn followed_by(self, more: TestDataView) -> TestDataView {
        TestDataView {
            bitcoin_blocks: self.bitcoin_blocks + more.bitcoin_blocks,
            stacks_blocks: self.stacks_blocks + more.stacks_blocks,
            deposit_requests: self.deposit_requests + more.deposit_requests,
            withdraw_requests: self.withdraw_requests + more.withdraw_requests,
            bitcoin_transactions: self.bitcoin_transactions + more.bitcoin_transactions,
            deposit_signers: self.deposit_signers + more.deposit_signers,
            withdraw_signers: self.withdraw_signers + more.withdraw_signers,
            tx_outputs: self.tx_outputs + more.tx_outputs,
            tx_prevouts: self.tx_prevouts + more.tx_prevouts,
        }
    }

    /// These rows without those that are, kind by kind, among `other`.
    pub open spec fn without(self, other: TestDataView) -> TestDataView {
        TestDataView {
            bitcoin_blocks: difference(self.bitcoin_blocks, other.bitcoin_blocks),
            stacks_blocks: difference(self.stacks_blocks, other.stacks_blocks),
            deposit_requests: difference(self.deposit_requests, other.deposit_requests),
            withdraw_requests: difference(self.withdraw_requests, other.withdraw_requests),
            bitcoin_transactions: difference(self.bitcoin_transactions, other.bitcoin_transactions),
            deposit_signers: difference(self.deposit_signers, other.deposit_signers),
            withdraw_signers: difference(self.withdraw_signers, other.withdraw_signers),
            tx_outputs: difference(self.tx_outputs, other.tx_outputs),
            tx_prevouts: difference(self.tx_prevouts, other.tx_prevouts),
        }
    }

    /// The first of the Bitcoin blocks with hash `hash`.
    pub open spec fn bitcoin_block(self, hash: BitcoinBlockHash) -> Option<BitcoinBlock> {
        first_block(self.bitcoin_blocks, hash)
    }
}

/// The store after all of `data` was written to it, kind by kind: Bitcoin
/// blocks, Stacks blocks, deposit requests, withdrawal requests,
/// memberships of transactions, decisions on deposits, decisions on
/// withdrawals, classified outputs, classified inputs.
pub open spec fn written(store: StoreView, data: TestDataView) -> StoreView {
    StoreView {
        bitcoin_blocks: inserted_all::<BitcoinBlock>(store.bitcoin_blocks, data.bitcoin_blocks),
        stacks_blocks: inserted_all::<StacksBlock>(store.stacks_blocks, data.stacks_blocks),
        deposit_requests: inserted_all::<DepositRequest>(
            store.deposit_requests,
            data.deposit_requests,
        ),
        withdrawal_requests: inserted_all::<WithdrawalRequest>(
            store.withdrawal_requests,
            data.withdraw_requests,
        ),
        bitcoin_transactions: inserted_all::<BitcoinTxRef>(
            store.bitcoin_transactions,
            data.bitcoin_transactions,
        ),
        deposit_signers: inserted_all::<DepositSigner>(store.deposit_signers, data.deposit_signers),
        withdrawal_signers: inserted_all::<WithdrawalSigner>(
            store.withdrawal_signers,
            data.withdraw_signers,
        ),
        tx_outputs: inserted_all::<TxOutput>(store.tx_outputs, data.tx_outputs),
        tx_prevouts: inserted_all::<TxPrevout>(store.tx_prevouts, data.tx_prevouts),
        dkg_shares: store.dkg_shares,
    }
}

impl View for TestData {
    type V = TestDataView;

    open spec fn view(&self) -> TestDataView {
        TestDataView {
            bitcoin_blocks: rows_view(self.bitcoin_blocks@),
            stacks_blocks: rows_view(self.stacks_blocks@),
            deposit_requests: rows_view(self.deposit_requests@),
            withdraw_requests: rows_view(self.withdraw_requests@),
            bitcoin_transactions: rows_view(self.bitcoin_transactions@),
            deposit_signers: rows_view(self.deposit_signers@),
            withdraw_signers: rows_view(self.withdraw_signers@),
            tx_outputs: rows_view(self.tx_outputs@),
            tx_prevouts: rows_view(self.tx_prevouts@),
        }
    }
}

/// A copy of the rows `rows`.
pub(crate) fn copy_rows<T: Row>(rows: &Vec<T>) -> (r: Vec<T>)
    ensures
        rows_view(r@) == rows_view(rows@),
{
    let mut r: Vec<T> = Vec::new();
    let mut i: usize = 0;
    while i < rows.len()
        invariant
            i <= rows.len(),
            r.len() == i,
            forall|j: int| 0 <= j < i ==> r@[j]@ == rows@[j]@,
        decreases rows.len() - i,
    {
        r.push(rows[i].copy());
        i += 1;
    }
    assert(rows_view(r@) =~= rows_view(rows@));
    r
}

impl Clone for TestData {
    fn clone(&self) -> (r: Self)
        ensures
            r@ == self@,
    {
        TestData {
            bitcoin_blocks: copy_rows(&self.bitcoin_blocks),
            stacks_blocks: copy_rows(&self.stacks_blocks),
            deposit_requests: copy_rows(&self.deposit_requests),
            withdraw_requests: copy_rows(&self.withdraw_requests),
            bitcoin_transactions: copy_rows(&self.bitcoin_transactions),
            deposit_signers: copy_rows(&self.deposit_signers),
            withdraw_signers: copy_rows(&self.withdraw_signers),
            tx_outputs: copy_rows(&self.tx_outputs),
            tx_prevouts: copy_rows(&self.tx_prevouts),
        }
    }
}

impl Default for TestData {
    fn default() -> (r: Self)
        ensures
            r@ == TestDataView::empty(),
    {
        TestData::new()
    }
}

/// Appends the rows of `more` to `rows`.
fn extend<T: Row>(rows: &mut Vec<T>, more: Vec<T>)
    ensures
        rows_view(final(rows)@) == rows_view(old(rows)@) + rows_view(more@),
{
    let mut more = more;
    let ghost given = more@;
    rows.append(&mut more);
    assert(rows_view(rows@) =~= rows_view(old(rows)@) + rows_view(given));
}

impl TestData {
    /// No rows.
    pub fn new() -> (r: Self)
        ensures
            r@ == TestDataView::empty(),
    {
        let r = TestData {
            bitcoin_blocks: Vec::new(),
            stacks_blocks: Vec::new(),
            deposit_requests: Vec::new(),
            withdraw_requests: Vec::new(),
            bitcoin_transactions: Vec::new(),
            deposit_signers: Vec::new(),
            withdraw_signers: Vec::new(),
            tx_outputs: Vec::new(),
            tx_prevouts: Vec::new(),
        };
        proof {
            assert(r@.bitcoin_blocks =~= Seq::empty());
            assert(r@.stacks_blocks =~= Seq::empty());
            assert(r@.deposit_requests =~= Seq::empty());
            assert(r@.withdraw_requests =~= Seq::empty());
            assert(r@.bitcoin_transactions =~= Seq::empty());
            assert(r@.deposit_signers =~= Seq::empty());
            assert(r@.withdraw_signers =~= Seq::empty());
            assert(r@.tx_outputs =~= Seq::empty());
            assert(r@.tx_prevouts =~= Seq::empty());
        }
        r
    }

    /// Adds the rows of `new_data` after the rows held, kind by kind.
    pub fn push(&mut self, new_data: Self)
        ensures
            final(self)@ == old(self)@.followed_by(new_data@),
    {
        extend(&mut self.bitcoin_blocks, new_data.bitcoin_blocks);
        extend(&mut self.stacks_blocks, new_data.stacks_blocks);
        extend(&mut self.deposit_requests, new_data.deposit_requests);
        extend(&mut self.deposit_signers, new_data.deposit_signers);
        extend(&mut self.withdraw_requests, new_data.withdraw_requests);
        extend(&mut self.withdraw_signers, new_data.withdraw_signers);
        extend(&mut self.bitcoin_transactions, new_data.bitcoin_transactions);
        extend(&mut self.tx_outputs, new_data.tx_outputs);
        extend(&mut self.tx_prevouts, new_data.tx_prevouts);
    }

    /// Removes the rows that are, kind by kind, among those of `other`.
    pub fn remove(&mut self, other: Self)
        ensures
            final(self)@ == old(self)@.without(other@),
    {
        vec_diff(&mut self.bitcoin_blocks, &other.bitcoin_blocks);
        vec_diff(&mut self.stacks_blocks, &other.stacks_blocks);
        vec_diff(&mut self.deposit_requests, &other.deposit_requests);
        vec_diff(&mut self.deposit_signers, &other.deposit_signers);
        vec_diff(&mut self.withdraw_requests, &other.withdraw_requests);
        vec_diff(&mut self.withdraw_signers, &other.withdraw_signers);
        vec_diff(&mut self.bitcoin_transactions, &other.bitcoin_transactions);
        vec_diff(&mut self.tx_outputs, &other.tx_outputs);
        vec_diff(&mut self.tx_prevouts, &other.tx_prevouts);
    }

    /// Adds the transactions `txs` as transactions of the block `block`: for
    /// each, that it is part of the block, and the rows for its outputs and
    /// inputs, where the signers' custody scripts are
    /// `signer_script_pubkeys` and the deposit requests that are known are
    /// those held.
    pub fn push_bitcoin_txs(
        &mut self,
        block: &BitcoinBlockRef,
        txs: Vec<TestBitcoinTxInfo>,
        signer_script_pubkeys: &Vec<ScriptPubKey>,
    )
        ensures
            final(self)@ == old(self)@.followed_by(
                TestDataView {
                    bitcoin_transactions: memberships(test_infos_view(txs@), block.block_hash),
                    tx_outputs: all_output_rows(
                        test_infos_view(txs@),
                        scripts_view(signer_script_pubkeys@),
                    ),
                    tx_prevouts: all_prevout_rows(
                        test_infos_view(txs@),
                        scripts_view(signer_script_pubkeys@),
                        old(self)@.deposit_requests,
                    ),
                    ..TestDataView::empty()
                },
            ),
    {
        let ghost infos = test_infos_view(txs@);
        let ghost scripts = scripts_view(signer_script_pubkeys@);
        let ghost deposits = self@.deposit_requests;
        let mut bitcoin_transactions: Vec<BitcoinTxRef> = Vec::new();
        let mut tx_outputs: Vec<TxOutput> = Vec::new();
        let mut tx_prevouts: Vec<TxPrevout> = Vec::new();
        let mut rest = txs;
        let ghost mut done: int = 0;
        proof {
            assert(infos.take(0) =~= Seq::empty());
            assert(rows_view(bitcoin_transactions@) =~= memberships(
                infos.take(0),
                block.block_hash,
            ));
            assert(rows_view(tx_outputs@) =~= Seq::empty());
            assert(rows_view(tx_prevouts@) =~= Seq::empty());
            assert(rest@.skip(0) =~= txs@);
        }
        while rest.len() > 0
            invariant
                *self == *old(self),
                deposits == self@.deposit_requests,
                scripts == scripts_view(signer_script_pubkeys@),
                infos == test_infos_view(txs@),
                0 <= done <= txs.len(),
                rest.len() == txs.len() - done,
                rest@ == txs@.skip(done),
                rows_view(bitcoin_transactions@) == memberships(infos.take(done), block.block_hash),
                rows_view(tx_outputs@) == all_output_rows(infos.take(done), scripts),
                rows_view(tx_prevouts@) == all_prevout_rows(infos.take(done), scripts, deposits),
            decreases rest.len(),
        {
            let ghost refs_before = bitcoin_transactions@;
            let tx_info = rest.remove(0);
            proof {
                assert(tx_info == txs@[done]);
                assert(rest@ =~= txs@.skip(done + 1));
                assert(infos.take(done + 1).drop_last() =~= infos.take(done));
                assert(infos.take(done + 1).last() == tx_info@.info());
            }
            let info = tx_info.into_tx_info();
            bitcoin_transactions.push(
                BitcoinTxRef { txid: info.txid, block_hash: block.block_hash },
            );
            let outputs = info.to_tx_outputs(signer_script_pubkeys);
            let prevouts = info.to_inputs(signer_script_pubkeys, &self.deposit_requests);
            extend(&mut tx_outputs, outputs);
            extend(&mut tx_prevouts, prevouts);
            proof {
                let member = BitcoinTxRef { txid: info.txid, block_hash: block.block_hash };
                assert(rows_view(bitcoin_transactions@) =~= rows_view(refs_before).push(member));
                assert(memberships(infos.take(done + 1), block.block_hash) =~= memberships(
                    infos.take(done),
                    block.block_hash,
                ).push(member));
                done = done + 1;
            }
        }
        proof {
            assert(infos.take(done) =~= infos);
        }
        let added = TestData {
            bitcoin_blocks: Vec::new(),
            stacks_blocks: Vec::new(),
            deposit_requests: Vec::new(),
            withdraw_requests: Vec::new(),
            bitcoin_transactions,
            deposit_signers: Vec::new(),
            withdraw_signers: Vec::new(),
            tx_outputs,
            tx_prevouts,
        };
        proof {
            assert(added@.bitcoin_blocks =~= Seq::empty());
            assert(added@.stacks_blocks =~= Seq::empty());
            assert(added@.deposit_requests =~= Seq::empty());
            assert(added@.withdraw_requests =~= Seq::empty());
            assert(added@.deposit_signers =~= Seq::empty());
            assert(added@.withdraw_signers =~= Seq::empty());
        }
        self.push(added);
    }

    /// Writes all rows to `store`, kind by kind. A row whose key the store
    /// holds is not written again.
    pub fn write_to(&self, store: &mut Store)
        ensures
            final(store)@ == written(old(store)@, self@),
            old(store)@.wf() ==> final(store)@.wf(),
    {
        store.write_bitcoin_blocks(&self.bitcoin_blocks);
        store.write_stacks_blocks(&self.stacks_blocks);
        store.write_deposit_requests(&self.deposit_requests);
        store.write_withdrawal_requests(&self.withdraw_requests);
        store.write_bitcoin_transactions(&self.bitcoin_transactions);
        store.write_deposit_signer_decisions(&self.deposit_signers);
        store.write_withdrawal_signer_decisions(&self.withdraw_signers);
        store.write_tx_outputs(&self.tx_outputs);
        store.write_tx_prevouts(&self.tx_prevouts);
    }

    /// The first Bitcoin block with hash `block_hash`.
    pub fn get_bitcoin_block(&self, block_hash: &BitcoinBlockHash) -> (r: Option<BitcoinBlock>)
        ensures
            r == self@.bitcoin_block(*block_hash),
    {
        let mut i: usize = 0;
        assert(self@.bitcoin_blocks.take(0) =~= Seq::empty());
        while i < self.bitcoin_blocks.len()
            invariant
                i <= self.bitcoin_blocks.len(),
                first_block(self@.bitcoin_blocks.take(i as int), *block_hash) is None,
            decreases self.bitcoin_blocks.len() - i,
        {
            proof {
                assert(self@.bitcoin_blocks.take(i + 1).drop_last() =~= self@.bitcoin_blocks.take(
                    i as int,
                ));
                assert(self@.bitcoin_blocks.take(i + 1).last() == self.bitcoin_blocks@[i as int]);
            }
            if self.bitcoin_blocks[i].block_hash.same(block_hash) {
                proof {
                    lemma_first_block_found(
                        self@.bitcoin_blocks,
                        *block_hash,
                        i as int,
                        self.bitcoin_blocks.len() as int,
                    );
                    assert(self@.bitcoin_blocks.take(self.bitcoin_blocks.len() as int)
                        =~= self@.bitcoin_blocks);
                }
                return Some(self.bitcoin_blocks[i]);
            }
            i += 1;
        }
        assert(self@.bitcoin_blocks.take(self.bitcoin_blocks.len() as int)
            =~= self@.bitcoin_blocks);
        None
    }
}

} // verus!
