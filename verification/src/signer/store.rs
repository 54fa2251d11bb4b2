//! The signers' store, held in memory: one table for each kind of row.

use super::dkg::{
    all_observed, all_settled, any_pending, any_pending_for, latest_verified, live_count,
    verified_scripts,
};
use super::model::{
    bytes_clone, scripts_view, BitcoinBlock, BitcoinBlockHash, BitcoinTxRef, DepositRequest,
    DepositRequestView, DepositSigner, DkgSharesStatus, EncryptedDkgShares,
    EncryptedDkgSharesView, OutPoint, PublicKey, Row, ScriptPubKey, StacksBlock, TxOutput,
    TxOutputView, TxPrevout, TxPrevoutView, WithdrawalRequest, WithdrawalRequestView,
    WithdrawalSigner,
};
use super::table::{has_key, insert, insert_all, inserted, inserted_all, rows_view, unique};
use vstd::prelude::*;

verus! {

/// The signers' store.
#[derive(Debug)]
pub struct Store {
    bitcoin_blocks: Vec<BitcoinBlock>,
    stacks_blocks: Vec<StacksBlock>,
    deposit_requests: Vec<DepositRequest>,
    withdrawal_requests: Vec<WithdrawalRequest>,
    bitcoin_transactions: Vec<BitcoinTxRef>,
    deposit_signers: Vec<DepositSigner>,
    withdrawal_signers: Vec<WithdrawalSigner>,
    tx_outputs: Vec<TxOutput>,
    tx_prevouts: Vec<TxPrevout>,
    dkg_shares: Vec<EncryptedDkgShares>,
}

/// Mathematical value of a [`Store`]: the rows of each table, in the order
/// in which they were written.
pub ghost struct StoreView {
    pub bitcoin_blocks: Seq<BitcoinBlock>,
    pub stacks_blocks: Seq<StacksBlock>,
    pub deposit_requests: Seq<DepositRequestView>,
    pub withdrawal_requests: Seq<WithdrawalRequestView>,
    pub bitcoin_transactions: Seq<BitcoinTxRef>,
    pub deposit_signers: Seq<DepositSigner>,
    pub withdrawal_signers: Seq<WithdrawalSigner>,
    pub tx_outputs: Seq<TxOutputView>,
    pub tx_prevouts: Seq<TxPrevoutView>,
    pub dkg_shares: Seq<EncryptedDkgSharesView>,
}

/// The first of `blocks` with hash `hash`.
pub open spec fn first_block(blocks: Seq<BitcoinBlock>, hash: BitcoinBlockHash) -> Option<
    BitcoinBlock,
>
    decreases blocks.len(),
{
    if blocks.len() == 0 {
        None
    } else {
        match first_block(blocks.drop_last(), hash) {
            Some(block) => Some(block),
            None => if blocks.last().block_hash == hash {
                Some(blocks.last())
            } else {
                None
            },
        }
    }
}

/// The first block with a hash stays the first however many blocks follow.
pub proof fn lemma_first_block_found(
    blocks: Seq<BitcoinBlock>,
    hash: BitcoinBlockHash,
    i: int,
    n: int,
)
    requires
        0 <= i < n <= blocks.len(),
        first_block(blocks.take(i), hash) is None,
        blocks[i].block_hash == hash,
    ensures
        first_block(blocks.take(n), hash) == Some(blocks[i]),
    decreases n - i,
{
    assert(blocks.take(n).drop_last() =~= blocks.take(n - 1));
    if n > i + 1 {
        lemma_first_block_found(blocks, hash, i, n - 1);
    }
}

/// There is a first block with a hash exactly if a block has that hash.
pub proof fn lemma_first_block_known(blocks: Seq<BitcoinBlock>, hash: BitcoinBlockHash)
    ensures
        first_block(blocks, hash) is Some <==> has_key::<BitcoinBlock>(blocks, hash),
        first_block(blocks, hash) matches Some(block) ==> block.block_hash == hash
            && blocks.contains(block),
    decreases blocks.len(),
{
    if blocks.len() > 0 {
        let front = blocks.drop_last();
        lemma_first_block_known(front, hash);
        if has_key::<BitcoinBlock>(front, hash) {
            let i = choose|i: int|
                0 <= i < front.len() && #[trigger] BitcoinBlock::key_of(front[i]) == hash;
            assert(BitcoinBlock::key_of(blocks[i]) == hash);
        }
        if blocks.last().block_hash == hash {
            assert(BitcoinBlock::key_of(blocks[blocks.len() - 1]) == hash);
        }
        if has_key::<BitcoinBlock>(blocks, hash) {
            let i = choose|i: int|
                0 <= i < blocks.len() && #[trigger] BitcoinBlock::key_of(blocks[i]) == hash;
            if i < front.len() {
                assert(BitcoinBlock::key_of(front[i]) == hash);
            }
        }
        match first_block(front, hash) {
            Some(block) => {
                let k = choose|k: int| 0 <= k < front.len() && front[k] == block;
                assert(blocks[k] == block);
            },
            None => {
                if blocks.last().block_hash == hash {
                    assert(blocks[blocks.len() - 1] == blocks.last());
                }
            },
        }
    }
}

/// The highest of `blocks`, and of several of that height the first.
pub open spec fn highest_block(blocks: Seq<BitcoinBlock>) -> Option<BitcoinBlock>
    decreases blocks.len(),
{
    if blocks.len() == 0 {
        None
    } else {
        match highest_block(blocks.drop_last()) {
            Some(best) => if blocks.last().block_height > best.block_height {
                Some(blocks.last())
            } else {
                Some(best)
            },
            None => Some(blocks.last()),
        }
    }
}

/// The highest block is one of the blocks, none of the blocks is higher, and
/// those before it are lower.
pub proof fn law_highest_block_is_highest(blocks: Seq<BitcoinBlock>)
    ensures
        highest_block(blocks) is None <==> blocks.len() == 0,
        highest_block(blocks) matches Some(tip) ==> exists|i: int|
            0 <= i < blocks.len() && #[trigger] blocks[i] == tip && (forall|j: int|
                0 <= j < blocks.len() ==> (#[trigger] blocks[j]).block_height <= tip.block_height)
                && (forall|j: int|
                0 <= j < i ==> (#[trigger] blocks[j]).block_height < tip.block_height),
    decreases blocks.len(),
{
    if blocks.len() > 0 {
        let front = blocks.drop_last();
        law_highest_block_is_highest(front);
        let n = blocks.len() - 1;
        match highest_block(front) {
            Some(best) => {
                let i = choose|i: int|
                    0 <= i < front.len() && #[trigger] front[i] == best && (forall|j: int|
                        0 <= j < front.len() ==> (#[trigger] front[j]).block_height
                            <= best.block_height) && (forall|j: int|
                        0 <= j < i ==> (#[trigger] front[j]).block_height < best.block_height);
                assert forall|j: int| 0 <= j < n implies blocks[j] == front[j] by {}
                if blocks.last().block_height > best.block_height {
                    assert(blocks[n] == blocks.last());
                    assert forall|j: int| 0 <= j < n implies (#[trigger] blocks[j]).block_height
                        < blocks.last().block_height by {
                        assert(front[j].block_height <= best.block_height);
                    }
                } else {
                    assert(blocks[i] == best);
                    assert forall|j: int| 0 <= j < blocks.len() implies (
                    #[trigger] blocks[j]).block_height <= best.block_height by {
                        if j < n {
                            assert(front[j].block_height <= best.block_height);
                        }
                    }
                    assert forall|j: int| 0 <= j < i implies (#[trigger] blocks[j]).block_height
                        < best.block_height by {
                        assert(front[j].block_height < best.block_height);
                    }
                }
            },
            None => {
                assert(blocks[0] == blocks.last());
            },
        }
    }
}

/// Whether one of the deposit requests `deposits` is for the output
/// `outpoint`.
pub open spec fn names_deposit(deposits: Seq<DepositRequestView>, outpoint: OutPoint) -> bool {
    has_key::<DepositRequest>(deposits, outpoint)
}

/// Whether one of the deposit requests `deposits` is for the output
/// `outpoint`.
pub fn is_deposit_among(deposits: &Vec<DepositRequest>, outpoint: &OutPoint) -> (r: bool)
    ensures
        r == names_deposit(rows_view(deposits@), *outpoint),
{
    let mut i: usize = 0;
    while i < deposits.len()
        invariant
            i <= deposits.len(),
            forall|j: int|
                0 <= j < i ==> DepositRequest::key_of(#[trigger] rows_view(deposits@)[j])
                    != *outpoint,
        decreases deposits.len() - i,
    {
        if deposits[i].outpoint().same(outpoint) {
            assert(DepositRequest::key_of(rows_view(deposits@)[i as int]) == *outpoint);
            return true;
        }
        i += 1;
    }
    false
}

impl StoreView {
    /// The store that holds nothing.
    pub open spec fn empty() -> StoreView {
        StoreView {
            bitcoin_blocks: Seq::empty(),
            stacks_blocks: Seq::empty(),
            deposit_requests: Seq::empty(),
            withdrawal_requests: Seq::empty(),
            bitcoin_transactions: Seq::empty(),
            deposit_signers: Seq::empty(),
            withdrawal_signers: Seq::empty(),
            tx_outputs: Seq::empty(),
            tx_prevouts: Seq::empty(),
            dkg_shares: Seq::empty(),
        }
    }

    /// Whether no table holds two rows with the same key.
    pub open spec fn wf(self) -> bool {
        &&& unique::<BitcoinBlock>(self.bitcoin_blocks)
        &&& unique::<StacksBlock>(self.stacks_blocks)
        &&& unique::<DepositRequest>(self.deposit_requests)
        &&& unique::<WithdrawalRequest>(self.withdrawal_requests)
        &&& unique::<BitcoinTxRef>(self.bitcoin_transactions)
        &&& unique::<DepositSigner>(self.deposit_signers)
        &&& unique::<WithdrawalSigner>(self.withdrawal_signers)
        &&& unique::<TxOutput>(self.tx_outputs)
        &&& unique::<TxPrevout>(self.tx_prevouts)
        &&& unique::<EncryptedDkgShares>(self.dkg_shares)
    }

    /// Whether the store knows the Bitcoin block with hash `hash`.
    pub open spec fn knows_block(self, hash: BitcoinBlockHash) -> bool {
        has_key::<BitcoinBlock>(self.bitcoin_blocks, hash)
    }

    /// Whether the store holds a deposit request for the output `outpoint`.
    pub open spec fn has_deposit(self, outpoint: OutPoint) -> bool {
        names_deposit(self.deposit_requests, outpoint)
    }

    /// The store after the Bitcoin block `block` was written.
    pub open spec fn with_bitcoin_block(self, block: BitcoinBlock) -> StoreView {
        StoreView { bitcoin_blocks: inserted::<BitcoinBlock>(self.bitcoin_blocks, block), ..self }
    }

    /// The store after the Stacks block `block` was written.
    pub open spec fn with_stacks_block(self, block: StacksBlock) -> StoreView {
        StoreView { stacks_blocks: inserted::<StacksBlock>(self.stacks_blocks, block), ..self }
    }

    /// The store after the deposit request `request` was written.
    pub open spec fn with_deposit_request(self, request: DepositRequestView) -> StoreView {
        StoreView {
            deposit_requests: inserted::<DepositRequest>(self.deposit_requests, request),
            ..self
        }
    }

    /// The store after the withdrawal request `request` was written.
    pub open spec fn with_withdrawal_request(self, request: WithdrawalRequestView) -> StoreView {
        StoreView {
            withdrawal_requests: inserted::<WithdrawalRequest>(self.withdrawal_requests, request),
            ..self
        }
    }

    /// The store after the membership `tx` of a transaction in a block was
    /// written.
    pub open spec fn with_bitcoin_transaction(self, tx: BitcoinTxRef) -> StoreView {
        StoreView {
            bitcoin_transactions: inserted::<BitcoinTxRef>(self.bitcoin_transactions, tx),
            ..self
        }
    }

    /// The store after a signer's decision on a deposit was written.
    pub open spec fn with_deposit_signer(self, decision: DepositSigner) -> StoreView {
        StoreView {
            deposit_signers: inserted::<DepositSigner>(self.deposit_signers, decision),
            ..self
        }
    }

    /// The store after a signer's decision on a withdrawal was written.
    pub open spec fn with_withdrawal_signer(self, decision: WithdrawalSigner) -> StoreView {
        StoreView {
            withdrawal_signers: inserted::<WithdrawalSigner>(self.withdrawal_signers, decision),
            ..self
        }
    }

    /// The store after the classified output `output` was written.
    pub open spec fn with_tx_output(self, output: TxOutputView) -> StoreView {
        StoreView { tx_outputs: inserted::<TxOutput>(self.tx_outputs, output), ..self }
    }

    /// The store after the classified input `prevout` was written.
    pub open spec fn with_tx_prevout(self, prevout: TxPrevoutView) -> StoreView {
        StoreView { tx_prevouts: inserted::<TxPrevout>(self.tx_prevouts, prevout), ..self }
    }

    /// The store after the outcome `shares` of a key generation was written.
    pub open spec fn with_dkg_shares(self, shares: EncryptedDkgSharesView) -> StoreView {
        StoreView { dkg_shares: inserted::<EncryptedDkgShares>(self.dkg_shares, shares), ..self }
    }

    /// The canonical chain tip: the highest Bitcoin block of the store, and
    /// of several of that height the first written.
    pub open spec fn canonical_tip(self) -> Option<BitcoinBlock> {
        highest_block(self.bitcoin_blocks)
    }
}

impl View for Store {
    type V = StoreView;

    closed spec fn view(&self) -> StoreView {
        StoreView {
            bitcoin_blocks: rows_view(self.bitcoin_blocks@),
            stacks_blocks: rows_view(self.stacks_blocks@),
            deposit_requests: rows_view(self.deposit_requests@),
            withdrawal_requests: rows_view(self.withdrawal_requests@),
            bitcoin_transactions: rows_view(self.bitcoin_transactions@),
            deposit_signers: rows_view(self.deposit_signers@),
            withdrawal_signers: rows_view(self.withdrawal_signers@),
            tx_outputs: rows_view(self.tx_outputs@),
            tx_prevouts: rows_view(self.tx_prevouts@),
            dkg_shares: rows_view(self.dkg_shares@),
        }
    }
}

impl Store {
    /// A store that holds nothing.
    pub fn new() -> (r: Self)
        ensures
            r@ == StoreView::empty(),
            r@.wf(),
    {
        let r = Store {
            bitcoin_blocks: Vec::new(),
            stacks_blocks: Vec::new(),
            deposit_requests: Vec::new(),
            withdrawal_requests: Vec::new(),
            bitcoin_transactions: Vec::new(),
            deposit_signers: Vec::new(),
            withdrawal_signers: Vec::new(),
            tx_outputs: Vec::new(),
            tx_prevouts: Vec::new(),
            dkg_shares: Vec::new(),
        };
        proof {
            assert(r@.bitcoin_blocks =~= Seq::empty());
            assert(r@.stacks_blocks =~= Seq::empty());
            assert(r@.deposit_requests =~= Seq::empty());
            assert(r@.withdrawal_requests =~= Seq::empty());
            assert(r@.bitcoin_transactions =~= Seq::empty());
            assert(r@.deposit_signers =~= Seq::empty());
            assert(r@.withdrawal_signers =~= Seq::empty());
            assert(r@.tx_outputs =~= Seq::empty());
            assert(r@.tx_prevouts =~= Seq::empty());
            assert(r@.dkg_shares =~= Seq::empty());
        }
        r
    }

    /// Writes a Bitcoin block, unless the store knows a block with its hash.
    pub fn write_bitcoin_block(&mut self, block: &BitcoinBlock)
        ensures
            final(self)@ == old(self)@.with_bitcoin_block(*block),
            old(self)@.wf() ==> final(self)@.wf(),
    {
        insert(&mut self.bitcoin_blocks, block.copy());
    }

    /// Writes a Stacks block, unless the store knows a block with its hash.
    pub fn write_stacks_block(&mut self, block: &StacksBlock)
        ensures
            final(self)@ == old(self)@.with_stacks_block(*block),
            old(self)@.wf() ==> final(self)@.wf(),
    {
        insert(&mut self.stacks_blocks, block.copy());
    }

    /// Writes a deposit request, unless the store holds one for its output.
    pub fn write_deposit_request(&mut self, request: &DepositRequest)
        ensures
            final(self)@ == old(self)@.with_deposit_request(request@),
            old(self)@.wf() ==> final(self)@.wf(),
    {
        insert(&mut self.deposit_requests, request.copy());
    }

    /// Writes a withdrawal request, unless the store holds one with its
    /// number.
    pub fn write_withdrawal_request(&mut self, request: &WithdrawalRequest)
        ensures
            final(self)@ == old(self)@.with_withdrawal_request(request@),
            old(self)@.wf() ==> final(self)@.wf(),
    {
        insert(&mut self.withdrawal_requests, request.copy());
    }

    /// Writes that a transaction is part of a block, unless the store holds
    /// that.
    pub fn write_bitcoin_transaction(&mut self, tx: &BitcoinTxRef)
        ensures
            final(self)@ == old(self)@.with_bitcoin_transaction(*tx),
            old(self)@.wf() ==> final(self)@.wf(),
    {
        insert(&mut self.bitcoin_transactions, tx.copy());
    }

    /// Writes a signer's decision on a deposit, unless the store holds that
    /// signer's decision on it.
    pub fn write_deposit_signer_decision(&mut self, decision: &DepositSigner)
        ensures
            final(self)@ == old(self)@.with_deposit_signer(*decision),
            old(self)@.wf() ==> final(self)@.wf(),
    {
        insert(&mut self.deposit_signers, decision.copy());
    }

    /// Writes a signer's decision on a withdrawal, unless the store holds
    /// that signer's decision on it.
    pub fn write_withdrawal_signer_decision(&mut self, decision: &WithdrawalSigner)
        ensures
            final(self)@ == old(self)@.with_withdrawal_signer(*decision),
            old(self)@.wf() ==> final(self)@.wf(),
    {
        insert(&mut self.withdrawal_signers, decision.copy());
    }

    /// Writes a classified output, unless the store holds a row for that
    /// output.
    pub fn write_tx_output(&mut self, output: &TxOutput)
        ensures
            final(self)@ == old(self)@.with_tx_output(output@),
            old(self)@.wf() ==> final(self)@.wf(),
    {
        insert(&mut self.tx_outputs, output.copy());
    }

    /// Writes a classified input, unless the store holds a row for that
    /// input.
    pub fn write_tx_prevout(&mut self, prevout: &TxPrevout)
        ensures
            final(self)@ == old(self)@.with_tx_prevout(prevout@),
            old(self)@.wf() ==> final(self)@.wf(),
    {
        insert(&mut self.tx_prevouts, prevout.copy());
    }

    /// Writes Bitcoin blocks, first to last, each unless the store holds a row with
    /// its key.
    pub fn write_bitcoin_blocks(&mut self, rows: &Vec<BitcoinBlock>)
        ensures
            final(self)@ == (StoreView {
                bitcoin_blocks: inserted_all::<BitcoinBlock>(
                    old(self)@.bitcoin_blocks,
                    rows_view(rows@),
                ),
                ..old(self)@
            }),
            old(self)@.wf() ==> final(self)@.wf(),
    {
        insert_all(&mut self.bitcoin_blocks, rows);
    }

    /// Writes Stacks blocks, first to last, each unless the store holds a row with
    /// its key.
    pub fn write_stacks_blocks(&mut self, rows: &Vec<StacksBlock>)
        ensures
            final(self)@ == (StoreView {
                stacks_blocks: inserted_all::<StacksBlock>(
                    old(self)@.stacks_blocks,
                    rows_view(rows@),
                ),
                ..old(self)@
            }),
            old(self)@.wf() ==> final(self)@.wf(),
    {
        insert_all(&mut self.stacks_blocks, rows);
    }

    /// Writes deposit requests, first to last, each unless the store holds a row with
    /// its key.
    pub fn write_deposit_requests(&mut self, rows: &Vec<DepositRequest>)
        ensures
            final(self)@ == (StoreView {
                deposit_requests: inserted_all::<DepositRequest>(
                    old(self)@.deposit_requests,
                    rows_view(rows@),
                ),
                ..old(self)@
            }),
            old(self)@.wf() ==> final(self)@.wf(),
    {
        insert_all(&mut self.deposit_requests, rows);
    }

    /// Writes withdrawal requests, first to last, each unless the store holds a row with
    /// its key.
    pub fn write_withdrawal_requests(&mut self, rows: &Vec<WithdrawalRequest>)
        ensures
            final(self)@ == (StoreView {
                withdrawal_requests: inserted_all::<WithdrawalRequest>(
                    old(self)@.withdrawal_requests,
                    rows_view(rows@),
                ),
                ..old(self)@
            }),
            old(self)@.wf() ==> final(self)@.wf(),
    {
        insert_all(&mut self.withdrawal_requests, rows);
    }

    /// Writes memberships of transactions in blocks, first to last, each
    /// unless the store holds a row with its key.
    pub fn write_bitcoin_transactions(&mut self, rows: &Vec<BitcoinTxRef>)
        ensures
            final(self)@ == (StoreView {
                bitcoin_transactions: inserted_all::<BitcoinTxRef>(
                    old(self)@.bitcoin_transactions,
                    rows_view(rows@),
                ),
                ..old(self)@
            }),
            old(self)@.wf() ==> final(self)@.wf(),
    {
        insert_all(&mut self.bitcoin_transactions, rows);
    }

    /// Writes signers' decisions on deposits, first to last, each unless the
    /// store holds a row with its key.
    pub fn write_deposit_signer_decisions(&mut self, rows: &Vec<DepositSigner>)
        ensures
            final(self)@ == (StoreView {
                deposit_signers: inserted_all::<DepositSigner>(
                    old(self)@.deposit_signers,
                    rows_view(rows@),
                ),
                ..old(self)@
            }),
            old(self)@.wf() ==> final(self)@.wf(),
    {
        insert_all(&mut self.deposit_signers, rows);
    }

    /// Writes signers' decisions on withdrawals, first to last, each unless
    /// the store holds a row with its key.
    pub fn write_withdrawal_signer_decisions(&mut self, rows: &Vec<WithdrawalSigner>)
        ensures
            final(self)@ == (StoreView {
                withdrawal_signers: inserted_all::<WithdrawalSigner>(
                    old(self)@.withdrawal_signers,
                    rows_view(rows@),
                ),
                ..old(self)@
            }),
            old(self)@.wf() ==> final(self)@.wf(),
    {
        insert_all(&mut self.withdrawal_signers, rows);
    }

    /// Writes classified outputs, first to last, each unless the store
    /// holds a row for that output.
    pub fn write_tx_outputs(&mut self, outputs: &Vec<TxOutput>)
        ensures
            final(self)@ == (StoreView {
                tx_outputs: inserted_all::<TxOutput>(
                    old(self)@.tx_outputs,
                    rows_view(outputs@),
                ),
                ..old(self)@
            }),
            old(self)@.wf() ==> final(self)@.wf(),
    {
        insert_all(&mut self.tx_outputs, outputs);
    }

    /// Writes classified inputs, first to last, each unless the store holds
    /// a row for that input.
    pub fn write_tx_prevouts(&mut self, prevouts: &Vec<TxPrevout>)
        ensures
            final(self)@ == (StoreView {
                tx_prevouts: inserted_all::<TxPrevout>(
                    old(self)@.tx_prevouts,
                    rows_view(prevouts@),
                ),
                ..old(self)@
            }),
            old(self)@.wf() ==> final(self)@.wf(),
    {
        insert_all(&mut self.tx_prevouts, prevouts);
    }

    /// Writes the outcome of a key generation, unless the store holds one
    /// for its aggregate key.
    pub fn write_encrypted_dkg_shares(&mut self, shares: &EncryptedDkgShares)
        ensures
            final(self)@ == old(self)@.with_dkg_shares(shares@),
            old(self)@.wf() ==> final(self)@.wf(),
    {
        insert(&mut self.dkg_shares, shares.copy());
    }

    /// The Bitcoin blocks of the store.
    pub fn bitcoin_blocks(&self) -> (r: &Vec<BitcoinBlock>)
        ensures
            rows_view(r@) == self@.bitcoin_blocks,
    {
        &self.bitcoin_blocks
    }

    /// The Stacks blocks of the store.
    pub fn stacks_blocks(&self) -> (r: &Vec<StacksBlock>)
        ensures
            rows_view(r@) == self@.stacks_blocks,
    {
        &self.stacks_blocks
    }

    /// The deposit requests of the store.
    pub fn deposit_requests(&self) -> (r: &Vec<DepositRequest>)
        ensures
            rows_view(r@) == self@.deposit_requests,
    {
        &self.deposit_requests
    }

    /// The withdrawal requests of the store.
    pub fn withdrawal_requests(&self) -> (r: &Vec<WithdrawalRequest>)
        ensures
            rows_view(r@) == self@.withdrawal_requests,
    {
        &self.withdrawal_requests
    }

    /// The memberships of transactions in blocks that the store holds.
    pub fn bitcoin_transactions(&self) -> (r: &Vec<BitcoinTxRef>)
        ensures
            rows_view(r@) == self@.bitcoin_transactions,
    {
        &self.bitcoin_transactions
    }

    /// The signers' decisions on deposits.
    pub fn deposit_signers(&self) -> (r: &Vec<DepositSigner>)
        ensures
            rows_view(r@) == self@.deposit_signers,
    {
        &self.deposit_signers
    }

    /// The signers' decisions on withdrawals.
    pub fn withdrawal_signers(&self) -> (r: &Vec<WithdrawalSigner>)
        ensures
            rows_view(r@) == self@.withdrawal_signers,
    {
        &self.withdrawal_signers
    }

    /// The classified outputs of the store.
    pub fn tx_outputs(&self) -> (r: &Vec<TxOutput>)
        ensures
            rows_view(r@) == self@.tx_outputs,
    {
        &self.tx_outputs
    }

    /// The classified inputs of the store.
    pub fn tx_prevouts(&self) -> (r: &Vec<TxPrevout>)
        ensures
            rows_view(r@) == self@.tx_prevouts,
    {
        &self.tx_prevouts
    }

    /// The outcomes of key generation that the store holds.
    pub fn dkg_shares(&self) -> (r: &Vec<EncryptedDkgShares>)
        ensures
            rows_view(r@) == self@.dkg_shares,
    {
        &self.dkg_shares
    }

    /// Whether the store knows the Bitcoin block with hash `hash`.
    pub fn is_known_bitcoin_block_hash(&self, hash: &BitcoinBlockHash) -> (r: bool)
        ensures
            r == self@.knows_block(*hash),
    {
        self.get_bitcoin_block(hash).is_some()
    }

    /// The Bitcoin block with hash `hash`, if the store knows it: the first
    /// written with that hash.
    pub fn get_bitcoin_block(&self, hash: &BitcoinBlockHash) -> (r: Option<BitcoinBlock>)
        ensures
            r == first_block(self@.bitcoin_blocks, *hash),
            r is Some <==> self@.knows_block(*hash),
    {
        let mut i: usize = 0;
        proof {
            lemma_first_block_known(self@.bitcoin_blocks, *hash);
            assert(self@.bitcoin_blocks.take(0) =~= Seq::empty());
        }
        while i < self.bitcoin_blocks.len()
            invariant
                i <= self.bitcoin_blocks.len(),
                first_block(self@.bitcoin_blocks, *hash) is Some <==> self@.knows_block(*hash),
                first_block(self@.bitcoin_blocks.take(i as int), *hash) is None,
            decreases self.bitcoin_blocks.len() - i,
        {
            proof {
                assert(self@.bitcoin_blocks.take(i + 1).drop_last() =~= self@.bitcoin_blocks.take(
                    i as int,
                ));
                assert(self@.bitcoin_blocks.take(i + 1).last() == self.bitcoin_blocks@[i as int]);
            }
            if self.bitcoin_blocks[i].block_hash.same(hash) {
                proof {
                    lemma_first_block_found(
                        self@.bitcoin_blocks,
                        *hash,
                        i as int,
                        self.bitcoin_blocks.len() as int,
                    );
                    assert(self@.bitcoin_blocks.take(self.bitcoin_blocks.len() as int)
                        =~= self@.bitcoin_blocks);
                }
                return Some(self.bitcoin_blocks[i]);
            }
            i += 1;
        }
        assert(self@.bitcoin_blocks.take(self.bitcoin_blocks.len() as int)
            =~= self@.bitcoin_blocks);
        None
    }

    /// Whether the store holds a deposit request for the output `outpoint`.
    pub fn is_deposit(&self, outpoint: &OutPoint) -> (r: bool)
        ensures
            r == self@.has_deposit(*outpoint),
    {
        is_deposit_among(&self.deposit_requests, outpoint)
    }

    /// The canonical chain tip: the highest Bitcoin block of the store, and
    /// of several of that height the first written. None if the store knows
    /// no block.
    pub fn get_bitcoin_canonical_chain_tip(&self) -> (r: Option<BitcoinBlock>)
        ensures
            r == self@.canonical_tip(),
    {
        let mut best: Option<BitcoinBlock> = None;
        let mut i: usize = 0;
        assert(self@.bitcoin_blocks.take(0) =~= Seq::empty());
        while i < self.bitcoin_blocks.len()
            invariant
                i <= self.bitcoin_blocks.len(),
                best == highest_block(self@.bitcoin_blocks.take(i as int)),
            decreases self.bitcoin_blocks.len() - i,
        {
            proof {
                assert(self@.bitcoin_blocks.take(i + 1).drop_last() =~= self@.bitcoin_blocks.take(
                    i as int,
                ));
                assert(self@.bitcoin_blocks.take(i + 1).last() == self.bitcoin_blocks@[i as int]);
            }
            let block = self.bitcoin_blocks[i];
            best = match best {
                Some(b) => if block.block_height > b.block_height {
                    Some(block)
                } else {
                    Some(b)
                },
                None => Some(block),
            };
            i += 1;
        }
        assert(self@.bitcoin_blocks.take(self.bitcoin_blocks.len() as int)
            =~= self@.bitcoin_blocks);
        best
    }

    /// The outcome of key generation that was written last.
    pub fn get_latest_encrypted_dkg_shares(&self) -> (r: Option<EncryptedDkgShares>)
        ensures
            self@.dkg_shares.len() == 0 ==> r is None,
            self@.dkg_shares.len() > 0 ==> (r matches Some(shares) && shares@
                == self@.dkg_shares.last()),
    {
        let n = self.dkg_shares.len();
        if n == 0 {
            None
        } else {
            assert(self@.dkg_shares.last() == self.dkg_shares@[n - 1]@);
            Some(self.dkg_shares[n - 1].copy())
        }
    }

    /// The verified outcome of key generation that was written last.
    pub fn get_latest_verified_dkg_shares(&self) -> (r: Option<EncryptedDkgShares>)
        ensures
            match latest_verified(self@.dkg_shares) {
                Some(shares) => r matches Some(found) && found@ == shares,
                None => r is None,
            },
    {
        let mut i: usize = self.dkg_shares.len();
        assert(self@.dkg_shares.take(i as int) =~= self@.dkg_shares);
        while i > 0
            invariant
                i <= self.dkg_shares.len(),
                latest_verified(self@.dkg_shares) == latest_verified(
                    self@.dkg_shares.take(i as int),
                ),
            decreases i,
        {
            i -= 1;
            proof {
                assert(self@.dkg_shares.take(i + 1).drop_last() =~= self@.dkg_shares.take(
                    i as int,
                ));
                assert(self@.dkg_shares.take(i + 1).last() == self.dkg_shares@[i as int]@);
            }
            match self.dkg_shares[i].dkg_shares_status {
                DkgSharesStatus::Verified => {
                    return Some(self.dkg_shares[i].copy());
                },
                _ => {},
            }
        }
        None
    }

    /// The custody scripts of the signers, current and past: those of the
    /// verified shares, in the order in which the shares were written.
    pub fn get_signers_script_pubkeys(&self) -> (r: Vec<ScriptPubKey>)
        ensures
            scripts_view(r@) == verified_scripts(self@.dkg_shares),
    {
        let mut scripts: Vec<ScriptPubKey> = Vec::new();
        let mut i: usize = 0;
        proof {
            assert(self@.dkg_shares.take(0) =~= Seq::empty());
            assert(scripts_view(scripts@) =~= Seq::empty());
        }
        while i < self.dkg_shares.len()
            invariant
                i <= self.dkg_shares.len(),
                scripts_view(scripts@) == verified_scripts(self@.dkg_shares.take(i as int)),
            decreases self.dkg_shares.len() - i,
        {
            let ghost before = scripts@;
            proof {
                assert(self@.dkg_shares.take(i + 1).drop_last() =~= self@.dkg_shares.take(
                    i as int,
                ));
                assert(self@.dkg_shares.take(i + 1).last() == self.dkg_shares@[i as int]@);
            }
            match self.dkg_shares[i].dkg_shares_status {
                DkgSharesStatus::Verified => {
                    scripts.push(bytes_clone(&self.dkg_shares[i].script_pubkey));
                    assert(scripts_view(scripts@) =~= scripts_view(before).push(
                        self.dkg_shares@[i as int]@.script_pubkey,
                    ));
                },
                _ => {},
            }
            i += 1;
        }
        assert(self@.dkg_shares.take(self.dkg_shares.len() as int) =~= self@.dkg_shares);
        scripts
    }

    /// The number of outcomes of key generation that have not failed.
    pub fn get_encrypted_dkg_shares_count(&self) -> (r: usize)
        ensures
            r == live_count(self@.dkg_shares),
    {
        let mut count: usize = 0;
        let mut i: usize = 0;
        assert(self@.dkg_shares.take(0) =~= Seq::empty());
        while i < self.dkg_shares.len()
            invariant
                i <= self.dkg_shares.len(),
                count <= i,
                count == live_count(self@.dkg_shares.take(i as int)),
            decreases self.dkg_shares.len() - i,
        {
            proof {
                assert(self@.dkg_shares.take(i + 1).drop_last() =~= self@.dkg_shares.take(
                    i as int,
                ));
                assert(self@.dkg_shares.take(i + 1).last() == self.dkg_shares@[i as int]@);
            }
            match self.dkg_shares[i].dkg_shares_status {
                DkgSharesStatus::Failed => {},
                _ => {
                    count += 1;
                },
            }
            i += 1;
        }
        assert(self@.dkg_shares.take(self.dkg_shares.len() as int) =~= self@.dkg_shares);
        count
    }

    /// Whether shares wait to be verified. While they do, no new round of
    /// key generation may start.
    pub fn has_pending_dkg_shares(&self) -> (r: bool)
        ensures
            r == any_pending(self@.dkg_shares),
    {
        let mut i: usize = 0;
        while i < self.dkg_shares.len()
            invariant
                i <= self.dkg_shares.len(),
                forall|j: int| 0 <= j < i ==> !(#[trigger] self@.dkg_shares[j]).is_pending(),
            decreases self.dkg_shares.len() - i,
        {
            assert(self@.dkg_shares[i as int] == self.dkg_shares@[i as int]@);
            if self.dkg_shares[i].is_pending() {
                return true;
            }
            i += 1;
        }
        false
    }

    /// Settles the pending shares of the aggregate key `aggregate_key` as
    /// `status`. Says whether there were such shares.
    fn settle_dkg_shares(
        &mut self,
        aggregate_key: &PublicKey,
        status: DkgSharesStatus,
    ) -> (changed: bool)
        ensures
            final(self)@ == (StoreView {
                dkg_shares: all_settled(old(self)@.dkg_shares, *aggregate_key, status),
                ..old(self)@
            }),
            changed == any_pending_for(old(self)@.dkg_shares, *aggregate_key),
            old(self)@.wf() ==> final(self)@.wf(),
    {
        let ghost before = self@;
        let n = self.dkg_shares.len();
        let mut updated: Vec<EncryptedDkgShares> = Vec::new();
        let mut changed = false;
        let mut i: usize = 0;
        while i < n
            invariant
                i <= n,
                n == self.dkg_shares.len(),
                self@ == before,
                updated.len() == i,
                forall|j: int|
                    0 <= j < i ==> (#[trigger] updated@[j])@ == before.dkg_shares[j].settled(
                        *aggregate_key,
                        status,
                    ),
                changed == any_pending_for(before.dkg_shares.take(i as int), *aggregate_key),
            decreases n - i,
        {
            assert(before.dkg_shares[i as int] == self.dkg_shares@[i as int]@);
            let mut shares = self.dkg_shares[i].copy();
            let settled = shares.settle(aggregate_key, status);
            proof {
                let seen = before.dkg_shares.take(i as int);
                let more = before.dkg_shares.take(i + 1);
                assert(more[i as int] == before.dkg_shares[i as int]);
                if any_pending_for(seen, *aggregate_key) {
                    let k = choose|k: int|
                        0 <= k < seen.len() && (#[trigger] seen[k]).is_pending()
                            && seen[k].aggregate_key == *aggregate_key;
                    assert(more[k] == seen[k]);
                }
                if any_pending_for(more, *aggregate_key) && !settled {
                    let k = choose|k: int|
                        0 <= k < more.len() && (#[trigger] more[k]).is_pending()
                            && more[k].aggregate_key == *aggregate_key;
                    assert(seen[k] == more[k]);
                }
            }
            if settled {
                changed = true;
            }
            updated.push(shares);
            i += 1;
        }
        self.dkg_shares = updated;
        proof {
            let after = all_settled(before.dkg_shares, *aggregate_key, status);
            assert(before.dkg_shares.take(n as int) =~= before.dkg_shares);
            assert(self@.dkg_shares =~= after);
            if before.wf() {
                assert forall|i: int, j: int|
                    0 <= i < j < after.len() implies #[trigger] EncryptedDkgShares::key_of(
                    after[i],
                ) != #[trigger] EncryptedDkgShares::key_of(after[j]) by {
                    assert(EncryptedDkgShares::key_of(before.dkg_shares[i])
                        != EncryptedDkgShares::key_of(before.dkg_shares[j]));
                }
            }
        }
        changed
    }

    /// Marks the pending shares of the aggregate key `aggregate_key` as
    /// verified. Says whether there were such shares.
    pub fn verify_dkg_shares(&mut self, aggregate_key: &PublicKey) -> (changed: bool)
        ensures
            final(self)@ == (StoreView {
                dkg_shares: all_settled(
                    old(self)@.dkg_shares,
                    *aggregate_key,
                    DkgSharesStatus::Verified,
                ),
                ..old(self)@
            }),
            changed == any_pending_for(old(self)@.dkg_shares, *aggregate_key),
            old(self)@.wf() ==> final(self)@.wf(),
    {
        self.settle_dkg_shares(aggregate_key, DkgSharesStatus::Verified)
    }

    /// Marks the pending shares of the aggregate key `aggregate_key` as
    /// failed. Says whether there were such shares.
    pub fn revoke_dkg_shares(&mut self, aggregate_key: &PublicKey) -> (changed: bool)
        ensures
            final(self)@ == (StoreView {
                dkg_shares: all_settled(
                    old(self)@.dkg_shares,
                    *aggregate_key,
                    DkgSharesStatus::Failed,
                ),
                ..old(self)@
            }),
            changed == any_pending_for(old(self)@.dkg_shares, *aggregate_key),
            old(self)@.wf() ==> final(self)@.wf(),
    {
        self.settle_dkg_shares(aggregate_key, DkgSharesStatus::Failed)
    }

    /// Takes note of a chain tip at `chain_tip_height`: marks as failed the
    /// shares that are pending and whose round started more than
    /// `verification_window` blocks below the tip.
    pub fn check_pending_dkg_shares(&mut self, chain_tip_height: u64, verification_window: u64)
        ensures
            final(self)@ == (StoreView {
                dkg_shares: all_observed(
                    old(self)@.dkg_shares,
                    chain_tip_height,
                    verification_window,
                ),
                ..old(self)@
            }),
            old(self)@.wf() ==> final(self)@.wf(),
    {
        let ghost before = self@;
        let n = self.dkg_shares.len();
        let mut updated: Vec<EncryptedDkgShares> = Vec::new();
        let mut i: usize = 0;
        while i < n
            invariant
                i <= n,
                n == self.dkg_shares.len(),
                self@ == before,
                updated.len() == i,
                forall|j: int|
                    0 <= j < i ==> (#[trigger] updated@[j])@ == before.dkg_shares[j].observed(
                        chain_tip_height,
                        verification_window,
                    ),
            decreases n - i,
        {
            assert(before.dkg_shares[i as int] == self.dkg_shares@[i as int]@);
            let mut shares = self.dkg_shares[i].copy();
            shares.observe(chain_tip_height, verification_window);
            updated.push(shares);
            i += 1;
        }
        self.dkg_shares = updated;
        proof {
            let after = all_observed(before.dkg_shares, chain_tip_height, verification_window);
            assert(self@.dkg_shares =~= after);
            if before.wf() {
                assert forall|i: int, j: int|
                    0 <= i < j < after.len() implies #[trigger] EncryptedDkgShares::key_of(
                    after[i],
                ) != #[trigger] EncryptedDkgShares::key_of(after[j]) by {
                    assert(EncryptedDkgShares::key_of(before.dkg_shares[i])
                        != EncryptedDkgShares::key_of(before.dkg_shares[j]));
                }
            }
        }
    }
}

} // verus!
