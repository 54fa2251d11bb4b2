//! What can go wrong while the signers read the chain.

use super::model::{BitcoinBlockHash, BitcoinTxId, OutPoint};
use vstd::prelude::*;

verus! {

/// An error of the signers' chain observation.
#[derive(Clone, Copy, Debug)]
pub enum Error {
    /// The chain-data source has no header for this block hash. The source
    /// may have it later.
    ChainDataUnavailable(BitcoinBlockHash),
    /// The chain-data source answered the question for this block hash with
    /// a header of another block, or of a height that does not fit under the
    /// block above it.
    InconsistentHeader(BitcoinBlockHash),
    /// The node does not know the transaction of this deposit.
    BitcoinTxMissing(OutPoint),
    /// The transaction of a deposit is a coinbase transaction.
    BitcoinTxCoinbase(BitcoinTxId),
    /// The transaction of this deposit has no output at the deposit's index.
    OutputMissing(OutPoint),
    /// The deposit script of this deposit is not of the form that the
    /// signers accept.
    InvalidDepositScript(OutPoint),
    /// The reclaim script of this deposit is not of the form that the
    /// signers accept.
    InvalidReclaimScript(OutPoint),
}

} // verus!
