//! What the block observer does with a chain tip, once the blocks and the
//! deposits are fetched: it takes in the deposits that the ledger knows,
//! reads each new block, lowest first, and then, once for the tip,
//! refreshes the shared state and checks the pending shares.

use super::classify::{classify_and_store, infos_view, BitcoinTxInfo, BitcoinTxInfoView};
use super::deposits::{
    candidates_view, load_latest_deposit_requests, refused, CreateDepositRequest,
    CreateDepositRequestView,
};
use super::dkg::{all_observed, latest_verified, verified_scripts};
use super::error::Error;
use super::model::{BitcoinBlock, BitcoinBlockHeader};
use super::state::{info_view, SbtcLimits, SignerSetInfo, SignerState};
use super::store::{Store, StoreView};
use vstd::prelude::*;

verus! {

/// A new block as the chain-data source gave it.
#[derive(Debug)]
pub struct FetchedBlock {
    /// The block's header.
    pub header: BitcoinBlockHeader,
    /// The block's transactions.
    pub transactions: Vec<BitcoinTxInfo>,
}

/// Mathematical value of a [`FetchedBlock`].
pub ghost struct FetchedBlockView {
    pub header: BitcoinBlockHeader,
    pub transactions: Seq<BitcoinTxInfoView>,
}

impl View for FetchedBlock {
    type V = FetchedBlockView;

    open spec fn view(&self) -> FetchedBlockView {
        FetchedBlockView { header: self.header, transactions: infos_view(self.transactions@) }
    }
}

/// Mathematical value of a list of blocks.
pub open spec fn blocks_view(blocks: Seq<FetchedBlock>) -> Seq<FetchedBlockView> {
    blocks.map_values(|b: FetchedBlock| b@)
}

/// What was fetched for the refresh of the shared state.
#[derive(Debug)]
pub struct FetchedState {
    /// The limits that the ledger reports.
    pub limits: SbtcLimits,
    /// Whether the sBTC contracts were seen deployed.
    pub contracts_deployed: bool,
    /// The signer set of the latest key rotation that the Stacks chain
    /// records, if it records one.
    pub registry_signer_set_info: Option<SignerSetInfo>,
}

/// The event that tells the signer's other parts that a chain tip was
/// processed.
#[derive(Clone, Copy, Debug, PartialEq, Eq, Structural)]
pub enum SignerEvent {
    /// A new Bitcoin chain tip was observed and processed.
    BitcoinBlockObserved,
}

impl StoreView {
    /// The block that the header `header` describes.
    pub open spec fn block_of(header: BitcoinBlockHeader) -> BitcoinBlock {
        BitcoinBlock {
            block_hash: header.hash,
            block_height: header.height,
            parent_hash: header.parent_hash,
        }
    }

    /// The store after the block `block` was processed: the block is
    /// written, and its transactions are read against the custody scripts
    /// of the verified shares.
    pub open spec fn with_block_processed(self, block: FetchedBlockView) -> StoreView {
        self.with_bitcoin_block(Self::block_of(block.header)).with_block_classified(
            block.header.hash,
            verified_scripts(self.dkg_shares),
            block.transactions,
        )
    }

    /// The store after the blocks `blocks` were processed, first to last.
    pub open spec fn with_blocks_processed(self, blocks: Seq<FetchedBlockView>) -> StoreView
        decreases blocks.len(),
    {
        if blocks.len() == 0 {
            self
        } else {
            self.with_blocks_processed(blocks.drop_last()).with_block_processed(blocks.last())
        }
    }

    /// The store after the deposits `candidates` were taken in and the new
    /// blocks `blocks` were processed.
    pub open spec fn with_tip_read(
        self,
        node: Seq<BitcoinTxInfoView>,
        candidates: Seq<CreateDepositRequestView>,
        blocks: Seq<FetchedBlockView>,
    ) -> StoreView {
        self.with_deposits_loaded(node, candidates).with_blocks_processed(blocks)
    }

    /// The store after the pending shares were checked against the
    /// canonical chain tip, if there is one.
    pub open spec fn with_shares_checked(self, verification_window: u64) -> StoreView {
        match self.canonical_tip() {
            Some(tip) => StoreView {
                dkg_shares: all_observed(self.dkg_shares, tip.block_height, verification_window),
                ..self
            },
            None => self,
        }
    }

    /// The store after a chain tip was processed: after the deposits
    /// `candidates` were taken in, the new blocks `blocks` were processed,
    /// and the pending shares were checked against the canonical chain
    /// tip.
    pub open spec fn with_tip_processed(
        self,
        node: Seq<BitcoinTxInfoView>,
        candidates: Seq<CreateDepositRequestView>,
        blocks: Seq<FetchedBlockView>,
        verification_window: u64,
    ) -> StoreView {
        self.with_tip_read(node, candidates, blocks).with_shares_checked(verification_window)
    }
}

/// Processes a new block: writes the block, and reads its transactions
/// against the custody scripts of all verified shares of `store`.
pub fn process_bitcoin_block(store: &mut Store, block: &FetchedBlock)
    ensures
        final(store)@ == old(store)@.with_block_processed(block@),
        old(store)@.wf() ==> final(store)@.wf(),
{
    let scripts = store.get_signers_script_pubkeys();
    store.write_bitcoin_block(&BitcoinBlock::from_header(block.header));
    classify_and_store(store, block.header.hash, &scripts, &block.transactions);
}

/// Processes a chain tip, given what was fetched for it: the deposits
/// `candidates` that the ledger knows, the transactions `node` that the
/// node has for them, the new blocks `blocks`, lowest first, and
/// `fetched` for the shared state.
///
/// Takes in the deposits; processes the blocks, first to last; then, once,
/// refreshes `state`, and marks as failed the pending shares that are more
/// than `verification_window` blocks below the canonical chain tip. Gives
/// the event to announce, and the reasons for which deposits were refused.
pub fn process_chain_tip(
    store: &mut Store,
    state: &mut SignerState,
    verification_window: u64,
    node: &Vec<BitcoinTxInfo>,
    candidates: &Vec<CreateDepositRequest>,
    blocks: &Vec<FetchedBlock>,
    fetched: FetchedState,
) -> (r: (SignerEvent, Vec<Error>))
    ensures
        final(store)@ == old(store)@.with_tip_processed(
            infos_view(node@),
            candidates_view(candidates@),
            blocks_view(blocks@),
            verification_window,
        ),
        final(state)@ == old(state)@.refreshed(
            fetched.limits,
            fetched.contracts_deployed,
            info_view(fetched.registry_signer_set_info),
            latest_verified(
                old(store)@.with_tip_read(
                    infos_view(node@),
                    candidates_view(candidates@),
                    blocks_view(blocks@),
                ).dkg_shares,
            ),
        ),
        r.0 == SignerEvent::BitcoinBlockObserved,
        r.1@ == refused(infos_view(node@), candidates_view(candidates@)),
        old(store)@.wf() ==> final(store)@.wf(),
{
    let errors = load_latest_deposit_requests(store, node, candidates);
    let ghost loaded = store@;
    let ghost views = blocks_view(blocks@);
    let mut i: usize = 0;
    assert(views.take(0) =~= Seq::empty());
    while i < blocks.len()
        invariant
            i <= blocks.len(),
            views == blocks_view(blocks@),
            store@ == loaded.with_blocks_processed(views.take(i as int)),
            loaded.wf() ==> store@.wf(),
        decreases blocks.len() - i,
    {
        proof {
            assert(views.take(i + 1).drop_last() =~= views.take(i as int));
            assert(views.take(i + 1).last() == blocks@[i as int]@);
        }
        process_bitcoin_block(store, &blocks[i]);
        i += 1;
    }
    assert(views.take(blocks.len() as int) =~= views);
    state.refresh(
        fetched.limits,
        fetched.contracts_deployed,
        fetched.registry_signer_set_info,
        store,
    );
    match store.get_bitcoin_canonical_chain_tip() {
        Some(tip) => {
            store.check_pending_dkg_shares(tip.block_height, verification_window);
        },
        None => {},
    }
    (SignerEvent::BitcoinBlockObserved, errors)
}

} // verus!
