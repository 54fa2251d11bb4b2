//! Making test data: block after block.

use super::blocks::{is_child_block, lemma_anchored_member, stacks_chained, stacks_per_block};
use super::data::{Params, TestData, TestDataView, UNKNOWN_PARENT_HEIGHT};
use super::requests::{
    lemma_max_request_id_grows, max_request_id, signers_per_request, DepositData,
    DepositDataView, WithdrawData, WithdrawDataView,
};
use crate::signer::model::{BitcoinBlock, BitcoinBlockRef, PublicKey, StacksBlock};
use rand::rngs::StdRng;
use vstd::prelude::*;

verus! {

impl TestDataView {
    /// The deposit data among these rows.
    pub open spec fn deposit_data(self) -> DepositDataView {
        DepositDataView {
            deposit_requests: self.deposit_requests,
            deposit_signers: self.deposit_signers,
            bitcoin_transactions: self.bitcoin_transactions,
        }
    }

    /// The withdrawal data among these rows.
    pub open spec fn withdraw_data(self) -> WithdrawDataView {
        WithdrawDataView {
            withdraw_requests: self.withdraw_requests,
            withdraw_signers: self.withdraw_signers,
        }
    }

    /// Whether a new block can be made on top of these rows: the heights
    /// and the number of the next request stay within what a `u64` holds.
    pub open spec fn can_grow(self, params: Params, parent: Option<BitcoinBlockRef>) -> bool {
        &&& self.has_room(stacks_per_block(params.num_stacks_blocks_per_bitcoin_block))
        &&& parent matches Some(p) ==> p.block_height < u64::MAX
        &&& max_request_id(self.withdraw_requests) + params.num_withdraw_requests_per_block
            < u64::MAX
    }

    /// Whether `made`, named by `block_ref`, can come out as a new block on
    /// top of these rows: one Bitcoin block, the child of `parent` or of
    /// one of the blocks held; its Stacks blocks; its deposit data and its
    /// withdrawal data, the requests numbered on from those held; and no
    /// classified outputs or inputs.
    pub open spec fn has_new_block(
        self,
        parent: Option<BitcoinBlockRef>,
        keys: Seq<PublicKey>,
        params: Params,
        made: TestDataView,
        block_ref: BitcoinBlockRef,
    ) -> bool {
        let per = signers_per_request(params.num_signers_per_request, keys.len() as int);
        &&& made.bitcoin_blocks.len() == 1
        &&& block_ref == (BitcoinBlockRef {
            block_hash: made.bitcoin_blocks[0].block_hash,
            block_height: made.bitcoin_blocks[0].block_height,
        })
        &&& is_child_block(self.bitcoin_blocks, parent, made.bitcoin_blocks[0])
        &&& self.has_stacks_blocks(made.bitcoin_blocks[0], params, made.stacks_blocks)
        &&& made.deposit_data().is_made_for(
            keys,
            made.bitcoin_blocks[0],
            params.num_deposit_requests_per_block as int,
            per,
        )
        &&& made.withdraw_data().is_made_for(
            keys,
            made.bitcoin_blocks[0],
            made.stacks_blocks,
            max_request_id(self.withdraw_requests),
            params.num_withdraw_requests_per_block as int,
            per,
        )
        &&& made.tx_outputs.len() == 0
        &&& made.tx_prevouts.len() == 0
    }
}

impl TestData {
    /// A new Bitcoin block on top of these rows, with what belongs to it,
    /// all with random values: the block, as the child of `parent` or, where
    /// none is given, of a block drawn from those held; its Stacks blocks;
    /// deposit requests and withdrawal requests with the signers' decisions.
    /// Gives the new rows, and the new block by hash and height.
    pub fn new_block(
        &self,
        rng: &mut StdRng,
        signer_keys: &Vec<PublicKey>,
        params: &Params,
        parent: Option<&BitcoinBlockRef>,
    ) -> (r: (Self, BitcoinBlockRef))
        requires
            self@.can_grow(
                *params,
                match parent {
                    Some(p) => Some(*p),
                    None => None,
                },
            ),
        ensures
            self@.has_new_block(
                match parent {
                    Some(p) => Some(*p),
                    None => None,
                },
                signer_keys@,
                *params,
                r.0@,
                r.1,
            ),
    {
        let block = self.generate_bitcoin_block(rng, parent);
        let stacks_blocks = self.generate_stacks_blocks(rng, &block, params);
        let deposit_data = DepositData::generate(
            rng,
            signer_keys,
            &block,
            params.num_deposit_requests_per_block,
            params.num_signers_per_request,
        );
        let withdraw_data = WithdrawData::generate(
            rng,
            signer_keys,
            &block,
            &stacks_blocks,
            &self.withdraw_requests,
            params.num_withdraw_requests_per_block,
            params.num_signers_per_request,
        );
        let mut bitcoin_blocks: Vec<BitcoinBlock> = Vec::new();
        bitcoin_blocks.push(block);
        let made = TestData {
            bitcoin_blocks,
            stacks_blocks,
            deposit_requests: deposit_data.deposit_requests,
            deposit_signers: deposit_data.deposit_signers,
            withdraw_requests: withdraw_data.withdraw_requests,
            withdraw_signers: withdraw_data.withdraw_signers,
            bitcoin_transactions: deposit_data.bitcoin_transactions,
            tx_outputs: Vec::new(),
            tx_prevouts: Vec::new(),
        };
        proof {
            assert(made@.bitcoin_blocks[0] == block);
            assert(made@.stacks_blocks =~= stacks_blocks@);
            assert(made@.deposit_data() == deposit_data@);
            assert(made@.withdraw_data() == withdraw_data@);
        }
        (made, BitcoinBlockRef::summarize(&block))
    }
}

/// Whether block `i` of `blocks` follows on the blocks before it as asked
/// for: as the child of the block just before it where blocks are to be
/// consecutive, else as the child of any block before it.
pub open spec fn follows(blocks: Seq<BitcoinBlock>, i: int, consecutive: bool) -> bool {
    if consecutive {
        blocks[i].parent_hash == blocks[i - 1].block_hash && blocks[i].block_height == blocks[i
            - 1].block_height + 1
    } else {
        exists|j: int|
            0 <= j < i && blocks[i].parent_hash == (#[trigger] blocks[j]).block_hash
                && blocks[i].block_height == blocks[j].block_height + 1
    }
}

impl Params {
    /// Whether test data of this size stays within what a `u64` holds: the
    /// heights of the blocks, counted up from the made-up height, and the
    /// numbers of the withdrawal requests.
    pub open spec fn fits(self) -> bool {
        let per_block = stacks_per_block(self.num_stacks_blocks_per_bitcoin_block);
        &&& UNKNOWN_PARENT_HEIGHT + self.num_bitcoin_blocks <= u64::MAX
        &&& UNKNOWN_PARENT_HEIGHT + self.num_bitcoin_blocks * per_block <= u64::MAX
        &&& self.num_bitcoin_blocks * self.num_withdraw_requests_per_block < u64::MAX
    }
}

impl TestDataView {
    /// Whether these rows can come out as test data of `n` Bitcoin blocks
    /// made for `params`, where the signers' keys are `keys`.
    ///
    /// There are `n` Bitcoin blocks. The first is at the height above the
    /// made-up one; each other follows on those before it as asked for.
    /// Of Stacks blocks, requests, transactions and decisions there are as
    /// many as asked for, for each Bitcoin block. The withdrawal requests
    /// are numbered from one on. There are no classified outputs or inputs.
    pub open spec fn is_generated(self, keys: Seq<PublicKey>, params: Params, n: int) -> bool {
        let per = signers_per_request(params.num_signers_per_request, keys.len() as int);
        &&& self.bitcoin_blocks.len() == n
        &&& self.stacks_blocks.len() == n * stacks_per_block(
            params.num_stacks_blocks_per_bitcoin_block,
        )
        &&& self.deposit_requests.len() == n * params.num_deposit_requests_per_block
        &&& self.bitcoin_transactions.len() == n * params.num_deposit_requests_per_block
        &&& self.deposit_signers.len() == n * (params.num_deposit_requests_per_block * per)
        &&& self.withdraw_requests.len() == n * params.num_withdraw_requests_per_block
        &&& self.withdraw_signers.len() == n * (params.num_withdraw_requests_per_block * per)
        &&& forall|k: int|
            0 <= k < self.withdraw_requests.len() ==> (
            #[trigger] self.withdraw_requests[k]).request_id == k + 1
        &&& self.tx_outputs.len() == 0
        &&& self.tx_prevouts.len() == 0
        &&& n > 0 ==> self.bitcoin_blocks[0].block_height == UNKNOWN_PARENT_HEIGHT + 1
        &&& forall|i: int|
            0 < i < n ==> #[trigger] follows(self.bitcoin_blocks, i, params.consecutive_blocks)
    }

    /// Whether no block is higher than `n` blocks of each kind on top of
    /// the made-up height make it, and the requests are numbered up to
    /// their count.
    pub open spec fn is_bounded(self, params: Params, n: int) -> bool {
        &&& forall|i: int|
            0 <= i < self.bitcoin_blocks.len() ==> (#[trigger] self.bitcoin_blocks[i]).block_height
                <= UNKNOWN_PARENT_HEIGHT + n
        &&& forall|i: int|
            0 <= i < self.stacks_blocks.len() ==> (#[trigger] self.stacks_blocks[i]).block_height
                <= UNKNOWN_PARENT_HEIGHT + n * stacks_per_block(
                params.num_stacks_blocks_per_bitcoin_block,
            )
        &&& max_request_id(self.withdraw_requests) == n * params.num_withdraw_requests_per_block
    }
}

/// The rows that the rows of `chunks` make, one after the other.
pub open spec fn built_from(chunks: Seq<TestDataView>) -> TestDataView
    decreases chunks.len(),
{
    if chunks.len() == 0 {
        TestDataView::empty()
    } else {
        built_from(chunks.drop_last()).followed_by(chunks.last())
    }
}

/// The parent that block `i` of `chunks` is made for: the block made
/// before it where blocks are to be consecutive, else none.
pub open spec fn parent_for(chunks: Seq<TestDataView>, i: int, consecutive: bool) -> Option<
    BitcoinBlockRef,
> {
    if consecutive && i > 0 {
        Some(
            BitcoinBlockRef {
                block_hash: chunks[i - 1].bitcoin_blocks[0].block_hash,
                block_height: chunks[i - 1].bitcoin_blocks[0].block_height,
            },
        )
    } else {
        None
    }
}

/// Whether each of `chunks` can come out as a new block on top of the rows
/// that those before it make.
pub open spec fn are_new_blocks(
    chunks: Seq<TestDataView>,
    keys: Seq<PublicKey>,
    params: Params,
) -> bool {
    forall|i: int|
        0 <= i < chunks.len() ==> built_from(chunks.take(i)).has_new_block(
            parent_for(chunks, i, params.consecutive_blocks),
            keys,
            params,
            #[trigger] chunks[i],
            BitcoinBlockRef {
                block_hash: chunks[i].bitcoin_blocks[0].block_hash,
                block_height: chunks[i].bitcoin_blocks[0].block_height,
            },
        )
}

/// In a chain of Stacks blocks, each block is as many above the first as
/// its place says.
proof fn lemma_stacks_chain_heights(blocks: Seq<StacksBlock>, i: int)
    requires
        stacks_chained(blocks),
        0 <= i < blocks.len(),
    ensures
        blocks[i].block_height == blocks[0].block_height + i,
    decreases i,
{
    if i > 0 {
        lemma_stacks_chain_heights(blocks, i - 1);
        assert(blocks[i].block_height == blocks[i - 1].block_height + 1);
    }
}

/// The parent that the next block is made for when the rows held are
/// `held`: the last block held where blocks are to be consecutive, else
/// none.
pub open spec fn next_parent(held: TestDataView, consecutive: bool) -> Option<BitcoinBlockRef> {
    if consecutive && held.bitcoin_blocks.len() > 0 {
        Some(
            BitcoinBlockRef {
                block_hash: held.bitcoin_blocks.last().block_hash,
                block_height: held.bitcoin_blocks.last().block_height,
            },
        )
    } else {
        None
    }
}

/// Test data of `n` blocks that is within its bounds has room for one more
/// block, as long as `n` is below the number of blocks asked for.
proof fn lemma_can_grow(held: TestDataView, keys: Seq<PublicKey>, params: Params, n: int)
    requires
        params.fits(),
        0 <= n < params.num_bitcoin_blocks,
        held.is_generated(keys, params, n),
        held.is_bounded(params, n),
    ensures
        held.can_grow(params, next_parent(held, params.consecutive_blocks)),
{
    let total = params.num_bitcoin_blocks as int;
    let per_block = stacks_per_block(params.num_stacks_blocks_per_bitcoin_block);
    let wpb = params.num_withdraw_requests_per_block as int;
    assert(n * per_block + per_block <= total * per_block) by (nonlinear_arith)
        requires
            n < total,
            per_block >= 1,
    ;
    assert(n * wpb + wpb <= total * wpb) by (nonlinear_arith)
        requires
            n < total,
            wpb >= 0,
    ;
    if held.bitcoin_blocks.len() > 0 {
        assert(held.bitcoin_blocks.last() == held.bitcoin_blocks[held.bitcoin_blocks.len() - 1]);
    }
}

/// A new block on top of test data of `n` blocks makes test data of one
/// block more: the blocks.
proof fn lemma_block_added_blocks(
    held: TestDataView,
    chunk: TestDataView,
    block_ref: BitcoinBlockRef,
    keys: Seq<PublicKey>,
    params: Params,
    n: int,
)
    requires
        0 <= n,
        held.is_generated(keys, params, n),
        held.is_bounded(params, n),
        held.has_new_block(
            next_parent(held, params.consecutive_blocks),
            keys,
            params,
            chunk,
            block_ref,
        ),
    ensures
        held.followed_by(chunk).bitcoin_blocks.len() == n + 1,
        held.followed_by(chunk).bitcoin_blocks[n] == chunk.bitcoin_blocks[0],
        held.followed_by(chunk).bitcoin_blocks[0].block_height == UNKNOWN_PARENT_HEIGHT + 1,
        forall|i: int|
            0 < i < n + 1 ==> #[trigger] follows(
                held.followed_by(chunk).bitcoin_blocks,
                i,
                params.consecutive_blocks,
            ),
        forall|i: int|
            0 <= i < n + 1 ==> (#[trigger] held.followed_by(chunk).bitcoin_blocks[i]).block_height
                <= UNKNOWN_PARENT_HEIGHT + (n + 1),
{
    let after = held.followed_by(chunk).bitcoin_blocks;
    let before = held.bitcoin_blocks;
    let block = chunk.bitcoin_blocks[0];
    assert(after[n] == block);
    assert forall|a: int| 0 <= a < n implies after[a] == before[a] by {}
    if n > 0 {
        assert(before.last() == before[n - 1]);
        if params.consecutive_blocks {
            assert(follows(after, n, true));
        } else {
            let j = choose|j: int|
                0 <= j < before.len() && block.parent_hash == (#[trigger] before[j]).block_hash
                    && block.block_height == before[j].block_height + 1;
            assert(after[j] == before[j]);
            assert(follows(after, n, false));
        }
    }
    assert forall|a: int| 0 < a < n + 1 implies #[trigger] follows(
        after,
        a,
        params.consecutive_blocks,
    ) by {
        if a < n {
            assert(follows(before, a, params.consecutive_blocks));
            if !params.consecutive_blocks {
                let j = choose|j: int|
                    0 <= j < a && before[a].parent_hash == (#[trigger] before[j]).block_hash
                        && before[a].block_height == before[j].block_height + 1;
                assert(after[j] == before[j]);
            }
        }
    }
    assert forall|a: int| 0 <= a < n + 1 implies (#[trigger] after[a]).block_height
        <= UNKNOWN_PARENT_HEIGHT + (n + 1) by {
        if a < n {
            assert(after[a] == before[a]);
        }
    }
}

/// A new block on top of test data of `n` blocks makes test data of one
/// block more: the Stacks blocks.
proof fn lemma_block_added_stacks(
    held: TestDataView,
    chunk: TestDataView,
    block_ref: BitcoinBlockRef,
    keys: Seq<PublicKey>,
    params: Params,
    n: int,
)
    requires
        0 <= n,
        held.is_generated(keys, params, n),
        held.is_bounded(params, n),
        held.has_new_block(
            next_parent(held, params.consecutive_blocks),
            keys,
            params,
            chunk,
            block_ref,
        ),
    ensures
        held.followed_by(chunk).stacks_blocks.len() == (n + 1) * stacks_per_block(
            params.num_stacks_blocks_per_bitcoin_block,
        ),
        forall|i: int|
            0 <= i < held.followed_by(chunk).stacks_blocks.len() ==> (#[trigger] held.followed_by(
                chunk,
            ).stacks_blocks[i]).block_height <= UNKNOWN_PARENT_HEIGHT + (n + 1) * stacks_per_block(
                params.num_stacks_blocks_per_bitcoin_block,
            ),
{
    let per_block = stacks_per_block(params.num_stacks_blocks_per_bitcoin_block);
    let after = held.followed_by(chunk).stacks_blocks;
    let before = held.stacks_blocks;
    let block = chunk.bitcoin_blocks[0];
    assert((n + 1) * per_block == n * per_block + per_block) by (nonlinear_arith);
    let parents = held.stacks_parents(block);
    if parents.len() > 0 {
        let anchor = held.bitcoin_block(block.parent_hash).unwrap().block_hash;
        assert forall|c: int| 0 <= c < parents.len() implies (#[trigger] parents[c]).block_height
            <= UNKNOWN_PARENT_HEIGHT + n * per_block by {
            lemma_anchored_member(before, anchor, c);
            let k = choose|k: int| 0 <= k < before.len() && before[k] == parents[c];
        }
        assert(parents.last() == parents[parents.len() - 1]);
    }
    assert(chunk.stacks_blocks[0].block_height <= UNKNOWN_PARENT_HEIGHT + n * per_block + 1);
    assert forall|a: int| 0 <= a < after.len() implies (#[trigger] after[a]).block_height
        <= UNKNOWN_PARENT_HEIGHT + (n + 1) * per_block by {
        if a < before.len() {
            assert(after[a] == before[a]);
        } else {
            let b = a - before.len();
            assert(after[a] == chunk.stacks_blocks[b]);
            lemma_stacks_chain_heights(chunk.stacks_blocks, b);
        }
    }
}

/// A new block on top of test data of `n` blocks makes test data of one
/// block more: the requests and the decisions.
proof fn lemma_block_added_requests(
    held: TestDataView,
    chunk: TestDataView,
    block_ref: BitcoinBlockRef,
    keys: Seq<PublicKey>,
    params: Params,
    n: int,
)
    requires
        0 <= n,
        held.is_generated(keys, params, n),
        held.is_bounded(params, n),
        held.has_new_block(
            next_parent(held, params.consecutive_blocks),
            keys,
            params,
            chunk,
            block_ref,
        ),
    ensures
        ({
            let after = held.followed_by(chunk);
            let per = signers_per_request(params.num_signers_per_request, keys.len() as int);
            &&& after.deposit_requests.len() == (n + 1) * params.num_deposit_requests_per_block
            &&& after.bitcoin_transactions.len() == (n + 1) * params.num_deposit_requests_per_block
            &&& after.deposit_signers.len() == (n + 1) * (params.num_deposit_requests_per_block
                * per)
            &&& after.withdraw_requests.len() == (n + 1) * params.num_withdraw_requests_per_block
            &&& after.withdraw_signers.len() == (n + 1) * (params.num_withdraw_requests_per_block
                * per)
            &&& forall|k: int|
                0 <= k < after.withdraw_requests.len() ==> (
                #[trigger] after.withdraw_requests[k]).request_id == k + 1
            &&& max_request_id(after.withdraw_requests) == (n + 1)
                * params.num_withdraw_requests_per_block
            &&& after.tx_outputs.len() == 0
            &&& after.tx_prevouts.len() == 0
        }),
{
    let after = held.followed_by(chunk);
    let per = signers_per_request(params.num_signers_per_request, keys.len() as int);
    let wpb = params.num_withdraw_requests_per_block as int;
    let dpb = params.num_deposit_requests_per_block as int;
    assert((n + 1) * wpb == n * wpb + wpb) by (nonlinear_arith);
    assert((n + 1) * dpb == n * dpb + dpb) by (nonlinear_arith);
    assert((n + 1) * (dpb * per) == n * (dpb * per) + dpb * per) by (nonlinear_arith);
    assert((n + 1) * (wpb * per) == n * (wpb * per) + wpb * per) by (nonlinear_arith);
    assert(chunk.deposit_data().deposit_signers.len() == dpb * per);
    assert(chunk.withdraw_data().withdraw_signers.len() == wpb * per);
    lemma_max_request_id_grows(held.withdraw_requests, chunk.withdraw_requests);
    assert forall|k: int| 0 <= k < after.withdraw_requests.len() implies (
    #[trigger] after.withdraw_requests[k]).request_id == k + 1 by {
        if k < held.withdraw_requests.len() {
            assert(after.withdraw_requests[k] == held.withdraw_requests[k]);
        } else {
            assert(after.withdraw_requests[k] == chunk.withdraw_requests[k
                - held.withdraw_requests.len()]);
        }
    }
}

/// One more new block on top of new blocks makes new blocks.
proof fn lemma_chunk_added(
    chunks: Seq<TestDataView>,
    chunk: TestDataView,
    block_ref: BitcoinBlockRef,
    keys: Seq<PublicKey>,
    params: Params,
)
    requires
        are_new_blocks(chunks, keys, params),
        built_from(chunks).bitcoin_blocks.len() == chunks.len(),
        chunks.len() > 0 ==> chunks.last().bitcoin_blocks[0] == built_from(
            chunks,
        ).bitcoin_blocks.last(),
        built_from(chunks).has_new_block(
            next_parent(built_from(chunks), params.consecutive_blocks),
            keys,
            params,
            chunk,
            block_ref,
        ),
    ensures
        are_new_blocks(chunks.push(chunk), keys, params),
        built_from(chunks.push(chunk)) == built_from(chunks).followed_by(chunk),
{
    let longer = chunks.push(chunk);
    let n = chunks.len() as int;
    assert(longer.drop_last() =~= chunks);
    assert forall|a: int| 0 <= a < longer.len() implies built_from(longer.take(a)).has_new_block(
        parent_for(longer, a, params.consecutive_blocks),
        keys,
        params,
        #[trigger] longer[a],
        BitcoinBlockRef {
            block_hash: longer[a].bitcoin_blocks[0].block_hash,
            block_height: longer[a].bitcoin_blocks[0].block_height,
        },
    ) by {
        if a > 0 {
            assert(longer[a - 1] == chunks[a - 1]);
        }
        if a < n {
            assert(longer.take(a) =~= chunks.take(a));
            assert(longer[a] == chunks[a]);
        } else {
            assert(longer.take(a) =~= chunks);
            if n > 0 {
                assert(chunks.last() == chunks[n - 1]);
            }
        }
    }
}

impl TestData {
    /// Test data with random values: `params.num_bitcoin_blocks` Bitcoin
    /// blocks, one made after the other, each with what belongs to it.
    /// Where blocks are to be consecutive, each block is the child of the
    /// one made before it; else it is the child of a block drawn from those
    /// made before it.
    pub fn generate(rng: &mut StdRng, signer_keys: &Vec<PublicKey>, params: &Params) -> (r: Self)
        requires
            params.fits(),
        ensures
            r@.is_generated(signer_keys@, *params, params.num_bitcoin_blocks as int),
            exists|chunks: Seq<TestDataView>|
                #![trigger built_from(chunks)]
                chunks.len() == params.num_bitcoin_blocks && are_new_blocks(
                    chunks,
                    signer_keys@,
                    *params,
                ) && r@ == built_from(chunks),
    {
        let ghost mut chunks: Seq<TestDataView> = Seq::empty();
        let ghost per = signers_per_request(
            params.num_signers_per_request,
            signer_keys@.len() as int,
        );
        let mut test_data = Self::new();
        let mut parent: Option<BitcoinBlockRef> = None;
        let mut i: usize = 0;
        proof {
            assert(0 * stacks_per_block(params.num_stacks_blocks_per_bitcoin_block) == 0)
                by (nonlinear_arith);
            assert(0 * params.num_deposit_requests_per_block == 0) by (nonlinear_arith);
            assert(0 * (params.num_deposit_requests_per_block * per) == 0) by (nonlinear_arith);
            assert(0 * params.num_withdraw_requests_per_block == 0) by (nonlinear_arith);
            assert(0 * (params.num_withdraw_requests_per_block * per) == 0) by (nonlinear_arith);
        }
        while i < params.num_bitcoin_blocks
            invariant
                i <= params.num_bitcoin_blocks,
                params.fits(),
                test_data@.is_generated(signer_keys@, *params, i as int),
                test_data@.is_bounded(*params, i as int),
                chunks.len() == i,
                test_data@ == built_from(chunks),
                are_new_blocks(chunks, signer_keys@, *params),
                i > 0 ==> chunks.last().bitcoin_blocks[0] == test_data@.bitcoin_blocks.last(),
                parent == next_parent(test_data@, params.consecutive_blocks),
            decreases params.num_bitcoin_blocks - i,
        {
            let ghost held = test_data@;
            proof {
                lemma_can_grow(held, signer_keys@, *params, i as int);
            }
            let (next_chunk, block_ref) = match &parent {
                Some(p) => test_data.new_block(rng, signer_keys, params, Some(p)),
                None => test_data.new_block(rng, signer_keys, params, None),
            };
            let ghost chunk = next_chunk@;
            test_data.push(next_chunk);
            proof {
                lemma_block_added_blocks(held, chunk, block_ref, signer_keys@, *params, i as int);
                lemma_block_added_stacks(held, chunk, block_ref, signer_keys@, *params, i as int);
                lemma_block_added_requests(held, chunk, block_ref, signer_keys@, *params, i as int);
                lemma_chunk_added(chunks, chunk, block_ref, signer_keys@, *params);
                chunks = chunks.push(chunk);
                assert(test_data@.bitcoin_blocks.last() == test_data@.bitcoin_blocks[i as int]);
            }
            if params.consecutive_blocks {
                parent = Some(block_ref);
            }
            i += 1;
        }
        test_data
    }
}

} // verus!
