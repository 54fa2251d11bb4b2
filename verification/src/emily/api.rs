//! Resources that the deposit ledger hands to its clients.

use vstd::prelude::*;
use vstd::std_specs::cmp::PartialEqSpecImpl;

verus! {

/// The status of a deposit, without the data that some statuses carry.
#[derive(Clone, Copy, Debug, PartialEq, Eq, Structural, Hash)]
pub enum DepositStatus {
    /// Seen, not yet acted on.
    Pending,
    /// Being looked at again after a reorganization.
    Reprocessing,
    /// The signers have accepted the deposit.
    Accepted,
    /// The deposit has been swept and sBTC minted.
    Confirmed,
    /// The deposit will not be fulfilled.
    Failed,
    /// The deposit transaction was replaced by another one.
    Rbf,
}

impl Default for DepositStatus {
    fn default() -> (r: Self)
        ensures
            r == DepositStatus::Pending,
    {
        DepositStatus::Pending
    }
}

/// How a confirmed deposit was fulfilled.
#[derive(Debug, Eq, Hash)]
pub struct Fulfillment {
    /// Id of the Bitcoin transaction that swept the deposit.
    pub bitcoin_txid: String,
    /// Index of the swept deposit among the sweep's inputs.
    pub bitcoin_tx_index: u32,
    /// Id of the Stacks transaction that minted the sBTC.
    pub stacks_txid: String,
    /// Hash of the Bitcoin block that holds the sweep.
    pub bitcoin_block_hash: String,
    /// Height of the Bitcoin block that holds the sweep.
    pub bitcoin_block_height: u64,
    /// Fee paid for the sweep, in satoshis.
    pub btc_fee: u64,
}

/// Mathematical value of a [`Fulfillment`].
pub ghost struct FulfillmentView {
    pub bitcoin_txid: Seq<char>,
    pub bitcoin_tx_index: u32,
    pub stacks_txid: Seq<char>,
    pub bitcoin_block_hash: Seq<char>,
    pub bitcoin_block_height: u64,
    pub btc_fee: u64,
}

impl View for Fulfillment {
    type V = FulfillmentView;

    open spec fn view(&self) -> FulfillmentView {
        FulfillmentView {
            bitcoin_txid: self.bitcoin_txid@,
            bitcoin_tx_index: self.bitcoin_tx_index,
            stacks_txid: self.stacks_txid@,
            bitcoin_block_hash: self.bitcoin_block_hash@,
            bitcoin_block_height: self.bitcoin_block_height,
            btc_fee: self.btc_fee,
        }
    }
}

impl Clone for Fulfillment {
    fn clone(&self) -> (r: Self)
        ensures
            r@ == self@,
    {
        Fulfillment {
            bitcoin_txid: self.bitcoin_txid.clone(),
            bitcoin_tx_index: self.bitcoin_tx_index,
            stacks_txid: self.stacks_txid.clone(),
            bitcoin_block_hash: self.bitcoin_block_hash.clone(),
            bitcoin_block_height: self.bitcoin_block_height,
            btc_fee: self.btc_fee,
        }
    }
}

impl PartialEq for Fulfillment {
    fn eq(&self, other: &Self) -> (r: bool) {
        self.bitcoin_txid == other.bitcoin_txid && self.bitcoin_tx_index == other.bitcoin_tx_index
            && self.stacks_txid == other.stacks_txid && self.bitcoin_block_hash
            == other.bitcoin_block_hash && self.bitcoin_block_height == other.bitcoin_block_height
            && self.btc_fee == other.btc_fee
    }
}

impl PartialEqSpecImpl for Fulfillment {
    open spec fn obeys_eq_spec() -> bool {
        true
    }

    open spec fn eq_spec(&self, other: &Self) -> bool {
        self@ == other@
    }
}

impl Default for Fulfillment {
    fn default() -> (r: Self)
        ensures
            r@ == (FulfillmentView {
                bitcoin_txid: Seq::empty(),
                bitcoin_tx_index: 0,
                stacks_txid: Seq::empty(),
                bitcoin_block_hash: Seq::empty(),
                bitcoin_block_height: 0,
                btc_fee: 0,
            }),
    {
        Fulfillment {
            bitcoin_txid: String::new(),
            bitcoin_tx_index: 0,
            stacks_txid: String::new(),
            bitcoin_block_hash: String::new(),
            bitcoin_block_height: 0,
            btc_fee: 0,
        }
    }
}

/// The Stacks chain tip as the ledger knows it.
#[derive(Debug, Eq, Hash)]
pub struct Chainstate {
    /// Height of the Stacks block.
    pub stacks_block_height: u64,
    /// Hash of the Stacks block.
    pub stacks_block_hash: String,
    /// Height of the Bitcoin block that the Stacks block is anchored to.
    pub bitcoin_block_height: Option<u64>,
}

/// Mathematical value of a [`Chainstate`].
pub ghost struct ChainstateView {
    pub stacks_block_height: u64,
    pub stacks_block_hash: Seq<char>,
    pub bitcoin_block_height: Option<u64>,
}

impl View for Chainstate {
    type V = ChainstateView;

    open spec fn view(&self) -> ChainstateView {
        ChainstateView {
            stacks_block_height: self.stacks_block_height,
            stacks_block_hash: self.stacks_block_hash@,
            bitcoin_block_height: self.bitcoin_block_height,
        }
    }
}

impl Clone for Chainstate {
    fn clone(&self) -> (r: Self)
        ensures
            r@ == self@,
    {
        Chainstate {
            stacks_block_height: self.stacks_block_height,
            stacks_block_hash: self.stacks_block_hash.clone(),
            bitcoin_block_height: self.bitcoin_block_height,
        }
    }
}

impl PartialEq for Chainstate {
    fn eq(&self, other: &Self) -> (r: bool) {
        self.stacks_block_height == other.stacks_block_height && self.stacks_block_hash
            == other.stacks_block_hash && self.bitcoin_block_height == other.bitcoin_block_height
    }
}

impl PartialEqSpecImpl for Chainstate {
    open spec fn obeys_eq_spec() -> bool {
        true
    }

    open spec fn eq_spec(&self, other: &Self) -> bool {
        self@ == other@
    }
}

/// The parameters that a depositor fixed in the deposit script.
#[derive(Clone, Copy, Debug, PartialEq, Eq, Structural, Hash)]
pub struct DepositParameters {
    /// The most that the signers may take as a fee, in satoshis.
    pub max_fee: u64,
    /// Bitcoin block height from which the depositor may reclaim the funds.
    pub lock_time: u32,
}

/// A deposit as the ledger reports it.
#[derive(Debug)]
pub struct Deposit {
    /// Id of the Bitcoin transaction that made the deposit.
    pub bitcoin_txid: String,
    /// Index of the deposit among that transaction's outputs.
    pub bitcoin_tx_output_index: u32,
    /// Stacks address that receives the sBTC, in hex.
    pub recipient: String,
    /// Amount deposited, in satoshis.
    pub amount: u64,
    /// Stacks block height of the deposit's last update.
    pub last_update_height: u64,
    /// Stacks block hash of the deposit's last update.
    pub last_update_block_hash: String,
    /// The deposit's status.
    pub status: DepositStatus,
    /// What was said when the status was set.
    pub status_message: String,
    /// The deposit's parameters.
    pub parameters: DepositParameters,
    /// The reclaim script, in hex.
    pub reclaim_script: String,
    /// The deposit script, in hex.
    pub deposit_script: String,
    /// How the deposit was fulfilled, once it is confirmed.
    pub fulfillment: Option<Fulfillment>,
    /// Id of the transaction that replaced this one, if one did.
    pub replaced_by_tx: Option<String>,
}

/// Mathematical value of a [`Deposit`].
pub ghost struct DepositView {
    pub bitcoin_txid: Seq<char>,
    pub bitcoin_tx_output_index: u32,
    pub recipient: Seq<char>,
    pub amount: u64,
    pub last_update_height: u64,
    pub last_update_block_hash: Seq<char>,
    pub status: DepositStatus,
    pub status_message: Seq<char>,
    pub parameters: DepositParameters,
    pub reclaim_script: Seq<char>,
    pub deposit_script: Seq<char>,
    pub fulfillment: Option<FulfillmentView>,
    pub replaced_by_tx: Option<Seq<char>>,
}

impl View for Deposit {
    type V = DepositView;

    open spec fn view(&self) -> DepositView {
        DepositView {
            bitcoin_txid: self.bitcoin_txid@,
            bitcoin_tx_output_index: self.bitcoin_tx_output_index,
            recipient: self.recipient@,
            amount: self.amount,
            last_update_height: self.last_update_height,
            last_update_block_hash: self.last_update_block_hash@,
            status: self.status,
            status_message: self.status_message@,
            parameters: self.parameters,
            reclaim_script: self.reclaim_script@,
            deposit_script: self.deposit_script@,
            fulfillment: match self.fulfillment {
                Some(f) => Some(f@),
                None => None,
            },
            replaced_by_tx: match self.replaced_by_tx {
                Some(t) => Some(t@),
                None => None,
            },
        }
    }
}

/// The short form of a deposit, as listings report it.
#[derive(Debug)]
pub struct DepositInfo {
    /// Id of the Bitcoin transaction that made the deposit.
    pub bitcoin_txid: String,
    /// Index of the deposit among that transaction's outputs.
    pub bitcoin_tx_output_index: u32,
    /// Stacks address that receives the sBTC, in hex.
    pub recipient: String,
    /// Amount deposited, in satoshis.
    pub amount: u64,
    /// Stacks block height of the deposit's last update.
    pub last_update_height: u64,
    /// Stacks block hash of the deposit's last update.
    pub last_update_block_hash: String,
    /// The deposit's status.
    pub status: DepositStatus,
    /// The reclaim script, in hex.
    pub reclaim_script: String,
    /// The deposit script, in hex.
    pub deposit_script: String,
}

} // verus!
