//! Random blocks of the two chains.

use super::data::{Params, StacksBlockSummary, TestData, TestDataView, UNKNOWN_PARENT_HEIGHT};
use crate::signer::model::{BitcoinBlock, BitcoinBlockHash, BitcoinBlockRef, StacksBlock};
use crate::signer::random::{choose_one, fake_hash, fake_u64};
use rand::rngs::StdRng;
use vstd::prelude::*;

verus! {

/// A Bitcoin block with random values.
fn random_bitcoin_block(rng: &mut StdRng) -> (r: BitcoinBlock) {
    BitcoinBlock {
        block_hash: fake_hash(rng),
        block_height: fake_u64(rng),
        parent_hash: fake_hash(rng),
    }
}

/// A Stacks block with random values.
fn random_stacks_block(rng: &mut StdRng) -> (r: StacksBlock) {
    StacksBlock {
        block_hash: fake_hash(rng),
        block_height: fake_u64(rng),
        parent_hash: fake_hash(rng),
        bitcoin_anchor: fake_hash(rng),
    }
}

/// Whether a block `child` can come out for a parent `parent`, or for no
/// given parent where the blocks known are `blocks`: it is the child of the
/// given parent; or of one of the blocks known; or, where none is known,
/// of a parent of unknown hash at the made-up height.
pub open spec fn is_child_block(
    blocks: Seq<BitcoinBlock>,
    parent: Option<BitcoinBlockRef>,
    child: BitcoinBlock,
) -> bool {
    match parent {
        Some(p) => child.parent_hash == p.block_hash && child.block_height == p.block_height + 1,
        None => if blocks.len() == 0 {
            child.block_height == UNKNOWN_PARENT_HEIGHT + 1
        } else {
            exists|i: int|
                0 <= i < blocks.len() && child.parent_hash == (#[trigger] blocks[i]).block_hash
                    && child.block_height == blocks[i].block_height + 1
        },
    }
}

/// The Stacks blocks among `blocks` that are anchored to the Bitcoin block
/// `anchor`, in their order.
pub open spec fn anchored_to(blocks: Seq<StacksBlock>, anchor: BitcoinBlockHash) -> Seq<
    StacksBlock,
>
    decreases blocks.len(),
{
    if blocks.len() == 0 {
        Seq::empty()
    } else {
        let before = anchored_to(blocks.drop_last(), anchor);
        if blocks.last().bitcoin_anchor == anchor {
            before.push(blocks.last())
        } else {
            before
        }
    }
}

/// Whether each of `blocks` but the first is the child of the one before
/// it.
pub open spec fn stacks_chained(blocks: Seq<StacksBlock>) -> bool {
    forall|i: int|
        0 < i < blocks.len() ==> (#[trigger] blocks[i]).parent_hash == blocks[i - 1].block_hash
            && blocks[i].block_height == blocks[i - 1].block_height + 1
}

/// The number of Stacks blocks that are made for one Bitcoin block when
/// `asked` are asked for: at least one.
pub open spec fn stacks_per_block(asked: usize) -> int {
    if asked == 0 {
        1
    } else {
        asked as int
    }
}

impl TestDataView {
    /// The Stacks blocks that can be the parent of the first Stacks block of
    /// a new Bitcoin block `block`: those anchored to the parent of
    /// `block`, if that parent is among the Bitcoin blocks held.
    pub open spec fn stacks_parents(self, block: BitcoinBlock) -> Seq<StacksBlock> {
        match self.bitcoin_block(block.parent_hash) {
            Some(parent) => anchored_to(self.stacks_blocks, parent.block_hash),
            None => Seq::empty(),
        }
    }

    /// Whether `made` can come out as the Stacks blocks of a new Bitcoin
    /// block `block`: they are as many as asked for and at least one, each
    /// anchored to `block`, each but the first the child of the one before
    /// it; and the first is the child of one of the possible parents, the
    /// last of them where blocks are to be consecutive, or, where there is
    /// no possible parent, of a parent of unknown hash at the made-up
    /// height.
    pub open spec fn has_stacks_blocks(
        self,
        block: BitcoinBlock,
        params: Params,
        made: Seq<StacksBlock>,
    ) -> bool {
        let parents = self.stacks_parents(block);
        &&& made.len() == stacks_per_block(params.num_stacks_blocks_per_bitcoin_block)
        &&& forall|i: int|
            0 <= i < made.len() ==> (#[trigger] made[i]).bitcoin_anchor == block.block_hash
        &&& stacks_chained(made)
        &&& self.has_first_stacks_block(block, params, made[0])
    }

    /// Whether `first` can come out as the first Stacks block of a new
    /// Bitcoin block `block`.
    pub open spec fn has_first_stacks_block(
        self,
        block: BitcoinBlock,
        params: Params,
        first: StacksBlock,
    ) -> bool {
        let parents = self.stacks_parents(block);
        if parents.len() == 0 {
            first.block_height == UNKNOWN_PARENT_HEIGHT + 1
        } else if params.consecutive_blocks {
            first.parent_hash == parents.last().block_hash && first.block_height
                == parents.last().block_height + 1
        } else {
            exists|i: int|
                0 <= i < parents.len() && first.parent_hash == (#[trigger] parents[i]).block_hash
                    && first.block_height == parents[i].block_height + 1
        }
    }

    /// Whether a block can be added on top of any Bitcoin block held, and
    /// `count` Stacks blocks on top of any Stacks block held or of a
    /// parent at the made-up height, without a height beyond what a `u64`
    /// holds.
    pub open spec fn has_room(self, count: int) -> bool {
        &&& forall|i: int|
            0 <= i < self.bitcoin_blocks.len() ==> (#[trigger] self.bitcoin_blocks[i]).block_height
                < u64::MAX
        &&& forall|i: int|
            0 <= i < self.stacks_blocks.len() ==> (#[trigger] self.stacks_blocks[i]).block_height
                + count <= u64::MAX
        &&& UNKNOWN_PARENT_HEIGHT + count <= u64::MAX
    }
}

/// The Stacks blocks among `blocks` that are anchored to `anchor`.
fn stacks_anchored_to(blocks: &Vec<StacksBlock>, anchor: &BitcoinBlockHash) -> (r: Vec<StacksBlock>)
    ensures
        r@ == anchored_to(blocks@, *anchor),
{
    let mut r: Vec<StacksBlock> = Vec::new();
    let mut i: usize = 0;
    assert(blocks@.take(0) =~= Seq::empty());
    while i < blocks.len()
        invariant
            i <= blocks.len(),
            r@ == anchored_to(blocks@.take(i as int), *anchor),
        decreases blocks.len() - i,
    {
        proof {
            assert(blocks@.take(i + 1).drop_last() =~= blocks@.take(i as int));
        }
        if blocks[i].bitcoin_anchor.same(anchor) {
            r.push(blocks[i]);
        }
        i += 1;
    }
    assert(blocks@.take(blocks.len() as int) =~= blocks@);
    r
}

impl TestData {
    /// A new Bitcoin block with random values, as the child of `parent`;
    /// or, where no parent is given, of a block drawn from those held; or,
    /// where none is held, of a parent of which nothing is known.
    pub(crate) fn generate_bitcoin_block(
        &self,
        rng: &mut StdRng,
        parent: Option<&BitcoinBlockRef>,
    ) -> (r: BitcoinBlock)
        requires
            match parent {
                Some(p) => p.block_height < u64::MAX,
                None => forall|i: int|
                    0 <= i < self@.bitcoin_blocks.len() ==> (
                    #[trigger] self@.bitcoin_blocks[i]).block_height < u64::MAX,
            },
        ensures
            is_child_block(
                self@.bitcoin_blocks,
                match parent {
                    Some(p) => Some(*p),
                    None => None,
                },
                r,
            ),
    {
        let mut block = random_bitcoin_block(rng);
        let parent_block_summary = match parent {
            Some(block) => *block,
            None => match choose_one(&self.bitcoin_blocks, rng) {
                Some(known) => {
                    proof {
                        let i = choose|i: int|
                            0 <= i < self.bitcoin_blocks.len() && self.bitcoin_blocks@[i] == *known;
                        assert(self@.bitcoin_blocks[i] == *known);
                    }
                    BitcoinBlockRef::summarize(known)
                },
                None => BitcoinBlockRef::hallucinate_parent(&block),
            },
        };
        block.parent_hash = parent_block_summary.block_hash;
        block.block_height = parent_block_summary.block_height + 1;
        block
    }

    /// The Stacks blocks of a new Bitcoin block `new_bitcoin_block`, with
    /// random values: as many as asked for and at least one, in a chain.
    /// The first is the child of a Stacks block anchored to the parent of
    /// the new Bitcoin block, if there is such a block: the last of them
    /// where blocks are to be consecutive, else one drawn from them.
    pub(crate) fn generate_stacks_blocks(
        &self,
        rng: &mut StdRng,
        new_bitcoin_block: &BitcoinBlock,
        params: &Params,
    ) -> (r: Vec<StacksBlock>)
        requires
            self@.has_room(stacks_per_block(params.num_stacks_blocks_per_bitcoin_block)),
        ensures
            self@.has_stacks_blocks(*new_bitcoin_block, *params, r@),
    {
        let ghost count = stacks_per_block(params.num_stacks_blocks_per_bitcoin_block);
        let mut stacks_block = random_stacks_block(rng);
        stacks_block.bitcoin_anchor = new_bitcoin_block.block_hash;

        let candidates = match self.get_bitcoin_block(&new_bitcoin_block.parent_hash) {
            Some(parent) => stacks_anchored_to(&self.stacks_blocks, &parent.block_hash),
            None => Vec::new(),
        };
        assert(self@.stacks_blocks =~= self.stacks_blocks@);
        assert(candidates@ =~= self@.stacks_parents(*new_bitcoin_block));
        let chosen = if params.consecutive_blocks {
            if candidates.len() > 0 {
                Some(&candidates[candidates.len() - 1])
            } else {
                None
            }
        } else {
            choose_one(&candidates, rng)
        };
        let stacks_parent_block_summary = match chosen {
            Some(parent) => {
                proof {
                    let i = choose|i: int| 0 <= i < candidates.len() && candidates@[i] == *parent;
                    let anchor = self@.bitcoin_block(
                        new_bitcoin_block.parent_hash,
                    ).unwrap().block_hash;
                    lemma_anchored_member(self@.stacks_blocks, anchor, i);
                    let k = choose|k: int|
                        0 <= k < self@.stacks_blocks.len() && self@.stacks_blocks[k] == *parent;
                    assert(self@.stacks_blocks[k].block_height + count <= u64::MAX);
                }
                StacksBlockSummary::summarize(parent)
            },
            None => StacksBlockSummary::hallucinate_parent(&stacks_block),
        };
        stacks_block.parent_hash = stacks_parent_block_summary.block_hash;
        stacks_block.block_height = stacks_parent_block_summary.block_height + 1;

        let num_stacks_blocks = params.num_stacks_blocks_per_bitcoin_block;
        let ghost first = stacks_block;
        assert(self@.has_first_stacks_block(*new_bitcoin_block, *params, first));
        let mut blocks: Vec<StacksBlock> = Vec::new();
        blocks.push(stacks_block);
        let mut i: usize = 1;
        while i < num_stacks_blocks
            invariant
                1 <= i,
                num_stacks_blocks == 0 ==> i == 1,
                num_stacks_blocks > 0 ==> i <= num_stacks_blocks,
                count == stacks_per_block(num_stacks_blocks),
                blocks.len() == i,
                blocks@[0] == first,
                self@.has_first_stacks_block(*new_bitcoin_block, *params, first),
                first.block_height + count <= u64::MAX + 1,
                forall|j: int|
                    0 <= j < blocks.len() ==> (#[trigger] blocks@[j]).bitcoin_anchor
                        == new_bitcoin_block.block_hash,
                forall|j: int|
                    0 <= j < blocks.len() ==> (#[trigger] blocks@[j]).block_height
                        == first.block_height + j,
                stacks_chained(blocks@),
            decreases num_stacks_blocks - i,
        {
            let parent = blocks[i - 1];
            let mut stacks_block = random_stacks_block(rng);
            stacks_block.parent_hash = parent.block_hash;
            stacks_block.block_height = parent.block_height + 1;
            stacks_block.bitcoin_anchor = parent.bitcoin_anchor;
            blocks.push(stacks_block);
            i += 1;
        }
        blocks
    }
}

/// Each of the blocks anchored to `anchor` is one of the blocks.
pub proof fn lemma_anchored_member(blocks: Seq<StacksBlock>, anchor: BitcoinBlockHash, i: int)
    requires
        0 <= i < anchored_to(blocks, anchor).len(),
    ensures
        blocks.contains(anchored_to(blocks, anchor)[i]),
    decreases blocks.len(),
{
    let front = blocks.drop_last();
    let before = anchored_to(front, anchor);
    if i < before.len() {
        lemma_anchored_member(front, anchor, i);
        let k = choose|k: int| 0 <= k < front.len() && front[k] == before[i];
        assert(blocks[k] == before[i]);
    } else {
        assert(blocks[blocks.len() - 1] == blocks.last());
    }
}

} // verus!
