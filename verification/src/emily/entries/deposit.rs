//! The entry of a deposit in the deposit table.

use crate::emily::api::{
    Chainstate, ChainstateView, Deposit, DepositParameters, DepositStatus, DepositView,
    Fulfillment, FulfillmentView,
};
use crate::emily::error::{EntryFault, Error, ErrorView, Inconsistency};
use vstd::prelude::*;
use vstd::std_specs::cmp::PartialEqSpecImpl;
use vstd::string::StringExecFns;

verus! {

/// Key of the deposit table: the deposit's outpoint.
#[derive(Debug, Eq, Hash)]
pub struct DepositEntryKey {
    /// Bitcoin transaction id.
    pub bitcoin_txid: String,
    /// Index of the deposit among the transaction's outputs.
    pub bitcoin_tx_output_index: u32,
}

/// Mathematical value of a [`DepositEntryKey`].
pub ghost struct DepositEntryKeyView {
    pub bitcoin_txid: Seq<char>,
    pub bitcoin_tx_output_index: u32,
}

impl View for DepositEntryKey {
    type V = DepositEntryKeyView;

    open spec fn view(&self) -> DepositEntryKeyView {
        DepositEntryKeyView {
            bitcoin_txid: self.bitcoin_txid@,
            bitcoin_tx_output_index: self.bitcoin_tx_output_index,
        }
    }
}

impl Clone for DepositEntryKey {
    fn clone(&self) -> (r: Self)
        ensures
            r@ == self@,
    {
        DepositEntryKey {
            bitcoin_txid: self.bitcoin_txid.clone(),
            bitcoin_tx_output_index: self.bitcoin_tx_output_index,
        }
    }
}

impl PartialEq for DepositEntryKey {
    fn eq(&self, other: &Self) -> (r: bool) {
        self.bitcoin_txid == other.bitcoin_txid && self.bitcoin_tx_output_index
            == other.bitcoin_tx_output_index
    }
}

impl PartialEqSpecImpl for DepositEntryKey {
    open spec fn obeys_eq_spec() -> bool {
        true
    }

    open spec fn eq_spec(&self, other: &Self) -> bool {
        self@ == other@
    }
}

impl Default for DepositEntryKey {
    fn default() -> (r: Self)
        ensures
            r@ == (DepositEntryKeyView { bitcoin_txid: Seq::empty(), bitcoin_tx_output_index: 0 }),
    {
        DepositEntryKey { bitcoin_txid: String::new(), bitcoin_tx_output_index: 0 }
    }
}

/// The digit `d` in writing.
pub open spec fn digit_text(d: nat) -> Seq<char> {
    if d == 0 {
        "0"@
    } else if d == 1 {
        "1"@
    } else if d == 2 {
        "2"@
    } else if d == 3 {
        "3"@
    } else if d == 4 {
        "4"@
    } else if d == 5 {
        "5"@
    } else if d == 6 {
        "6"@
    } else if d == 7 {
        "7"@
    } else if d == 8 {
        "8"@
    } else {
        "9"@
    }
}

/// The number `n` in decimal writing.
pub open spec fn decimal_text(n: nat) -> Seq<char>
    decreases n,
{
    if n < 10 {
        digit_text(n)
    } else {
        decimal_text(n / 10) + digit_text(n % 10)
    }
}

/// The digit `d` in writing.
fn digit_str(d: u32) -> (r: &'static str)
    requires
        d < 10,
    ensures
        r@ == digit_text(d as nat),
{
    if d == 0 {
        "0"
    } else if d == 1 {
        "1"
    } else if d == 2 {
        "2"
    } else if d == 3 {
        "3"
    } else if d == 4 {
        "4"
    } else if d == 5 {
        "5"
    } else if d == 6 {
        "6"
    } else if d == 7 {
        "7"
    } else if d == 8 {
        "8"
    } else {
        "9"
    }
}

/// The number `n` in decimal writing.
pub fn decimal_string(n: u32) -> (r: String)
    ensures
        r@ == decimal_text(n as nat),
    decreases n,
{
    if n < 10 {
        String::from_str(digit_str(n))
    } else {
        let mut text = decimal_string(n / 10);
        text.append(digit_str(n % 10));
        text
    }
}

impl DepositEntryKeyView {
    /// The key in writing: the transaction id, a colon, and the output
    /// index in decimal.
    pub open spec fn text(self) -> Seq<char> {
        self.bitcoin_txid + ":"@ + decimal_text(self.bitcoin_tx_output_index as nat)
    }
}

impl DepositEntryKey {
    /// The name of the table field that holds the partition key.
    pub fn partition_key_name() -> (r: &'static str)
        ensures
            r@ == "BitcoinTxid"@,
    {
        "BitcoinTxid"
    }

    /// The name of the table field that holds the sort key.
    pub fn sort_key_name() -> (r: &'static str)
        ensures
            r@ == "BitcoinTxOutputIndex"@,
    {
        "BitcoinTxOutputIndex"
    }

    /// The key in writing: the transaction id, a colon, and the output
    /// index in decimal.
    pub fn to_string(&self) -> (r: String)
        ensures
            r@ == self@.text(),
    {
        let mut text = self.bitcoin_txid.clone();
        text.append(":");
        text.append(decimal_string(self.bitcoin_tx_output_index).as_str());
        text
    }
}

/// The parameters of a deposit, as the table holds them.
#[derive(Clone, Copy, Debug, PartialEq, Eq, Structural, Hash)]
pub struct DepositParametersEntry {
    /// The most that the signers may take as a fee, in satoshis.
    pub max_fee: u64,
    /// Bitcoin block height from which the depositor may reclaim the funds.
    pub lock_time: u32,
}

impl Default for DepositParametersEntry {
    fn default() -> (r: Self)
        ensures
            r == (DepositParametersEntry { max_fee: 0, lock_time: 0 }),
    {
        DepositParametersEntry { max_fee: 0, lock_time: 0 }
    }
}

/// The status of a deposit together with the data that the status carries.
#[derive(Debug, Eq, Hash)]
pub enum DepositStatusEntry {
    /// Seen, not yet acted on.
    Pending,
    /// Being looked at again after a reorganization.
    Reprocessing,
    /// The signers have accepted the deposit.
    Accepted,
    /// The deposit has been swept; how it was fulfilled.
    Confirmed(Fulfillment),
    /// The deposit will not be fulfilled.
    Failed,
    /// The deposit transaction was replaced; the id of the replacement.
    Rbf(String),
}

/// Mathematical value of a [`DepositStatusEntry`].
pub ghost enum DepositStatusEntryView {
    Pending,
    Reprocessing,
    Accepted,
    Confirmed(FulfillmentView),
    Failed,
    Rbf(Seq<char>),
}

impl DepositStatusEntryView {
    /// The status without its data.
    pub open spec fn status(self) -> DepositStatus {
        match self {
            DepositStatusEntryView::Pending => DepositStatus::Pending,
            DepositStatusEntryView::Reprocessing => DepositStatus::Reprocessing,
            DepositStatusEntryView::Accepted => DepositStatus::Accepted,
            DepositStatusEntryView::Confirmed(_) => DepositStatus::Confirmed,
            DepositStatusEntryView::Failed => DepositStatus::Failed,
            DepositStatusEntryView::Rbf(_) => DepositStatus::Rbf,
        }
    }

    /// The fulfillment that a confirmed status carries.
    pub open spec fn fulfillment(self) -> Option<FulfillmentView> {
        match self {
            DepositStatusEntryView::Confirmed(f) => Some(f),
            _ => None,
        }
    }

    /// The replacement that a replaced status names.
    pub open spec fn replaced_by_tx(self) -> Option<Seq<char>> {
        match self {
            DepositStatusEntryView::Rbf(t) => Some(t),
            _ => None,
        }
    }
}

impl View for DepositStatusEntry {
    type V = DepositStatusEntryView;

    open spec fn view(&self) -> DepositStatusEntryView {
        match self {
            DepositStatusEntry::Pending => DepositStatusEntryView::Pending,
            DepositStatusEntry::Reprocessing => DepositStatusEntryView::Reprocessing,
            DepositStatusEntry::Accepted => DepositStatusEntryView::Accepted,
            DepositStatusEntry::Confirmed(f) => DepositStatusEntryView::Confirmed(f@),
            DepositStatusEntry::Failed => DepositStatusEntryView::Failed,
            DepositStatusEntry::Rbf(t) => DepositStatusEntryView::Rbf(t@),
        }
    }
}

impl Clone for DepositStatusEntry {
    fn clone(&self) -> (r: Self)
        ensures
            r@ == self@,
    {
        match self {
            DepositStatusEntry::Pending => DepositStatusEntry::Pending,
            DepositStatusEntry::Reprocessing => DepositStatusEntry::Reprocessing,
            DepositStatusEntry::Accepted => DepositStatusEntry::Accepted,
            DepositStatusEntry::Confirmed(f) => DepositStatusEntry::Confirmed(f.clone()),
            DepositStatusEntry::Failed => DepositStatusEntry::Failed,
            DepositStatusEntry::Rbf(t) => DepositStatusEntry::Rbf(t.clone()),
        }
    }
}

impl PartialEq for DepositStatusEntry {
    fn eq(&self, other: &Self) -> (r: bool) {
        match self {
            DepositStatusEntry::Pending => match other {
                DepositStatusEntry::Pending => true,
                _ => false,
            },
            DepositStatusEntry::Reprocessing => match other {
                DepositStatusEntry::Reprocessing => true,
                _ => false,
            },
            DepositStatusEntry::Accepted => match other {
                DepositStatusEntry::Accepted => true,
                _ => false,
            },
            DepositStatusEntry::Confirmed(a) => match other {
                DepositStatusEntry::Confirmed(b) => *a == *b,
                _ => false,
            },
            DepositStatusEntry::Failed => match other {
                DepositStatusEntry::Failed => true,
                _ => false,
            },
            DepositStatusEntry::Rbf(a) => match other {
                DepositStatusEntry::Rbf(b) => *a == *b,
                _ => false,
            },
        }
    }
}

impl PartialEqSpecImpl for DepositStatusEntry {
    open spec fn obeys_eq_spec() -> bool {
        true
    }

    open spec fn eq_spec(&self, other: &Self) -> bool {
        self@ == other@
    }
}

impl Default for DepositStatusEntry {
    fn default() -> (r: Self)
        ensures
            r@ == DepositStatusEntryView::Pending,
    {
        DepositStatusEntry::Pending
    }
}

impl DepositStatusEntry {
    /// The status without its data.
    pub fn status(&self) -> (r: DepositStatus)
        ensures
            r == self@.status(),
    {
        match self {
            DepositStatusEntry::Pending => DepositStatus::Pending,
            DepositStatusEntry::Reprocessing => DepositStatus::Reprocessing,
            DepositStatusEntry::Accepted => DepositStatus::Accepted,
            DepositStatusEntry::Confirmed(_) => DepositStatus::Confirmed,
            DepositStatusEntry::Failed => DepositStatus::Failed,
            DepositStatusEntry::Rbf(_) => DepositStatus::Rbf,
        }
    }

    /// The fulfillment that a confirmed status carries.
    pub fn fulfillment(&self) -> (r: Option<Fulfillment>)
        ensures
            fulfillment_view(r) == self@.fulfillment(),
    {
        match self {
            DepositStatusEntry::Confirmed(f) => Some(f.clone()),
            _ => None,
        }
    }

    /// The replacement that a replaced status names.
    pub fn replaced_by_tx(&self) -> (r: Option<String>)
        ensures
            text_view(r) == self@.replaced_by_tx(),
    {
        match self {
            DepositStatusEntry::Rbf(t) => Some(t.clone()),
            _ => None,
        }
    }
}

/// Mathematical value of an optional fulfillment.
pub open spec fn fulfillment_view(f: Option<Fulfillment>) -> Option<FulfillmentView> {
    match f {
        Some(f) => Some(f@),
        None => None,
    }
}

/// Mathematical value of an optional string.
pub open spec fn text_view(t: Option<String>) -> Option<Seq<char>> {
    match t {
        Some(t) => Some(t@),
        None => None,
    }
}

/// One event in the history of a deposit.
#[derive(Debug, Eq, Hash)]
pub struct DepositEvent {
    /// The status that the event set.
    pub status: DepositStatusEntry,
    /// What was said when the status was set.
    pub message: String,
    /// Stacks block height at the time of the event.
    pub stacks_block_height: u64,
    /// Stacks block hash at that height.
    pub stacks_block_hash: String,
}

/// Mathematical value of a [`DepositEvent`].
pub ghost struct DepositEventView {
    pub status: DepositStatusEntryView,
    pub message: Seq<char>,
    pub stacks_block_height: u64,
    pub stacks_block_hash: Seq<char>,
}

impl DepositEventView {
    /// Whether the event is still part of the chain after a reorganization
    /// around `chainstate`: it is older than the reorganization, or as old
    /// and on the same block.
    pub open spec fn survives(self, chainstate: ChainstateView) -> bool {
        chainstate.stacks_block_height > self.stacks_block_height || (
        chainstate.stacks_block_height == self.stacks_block_height
            && chainstate.stacks_block_hash == self.stacks_block_hash)
    }

    /// The fault, if any, in letting `next` follow this event.
    pub open spec fn following_fault(self, next: DepositEventView) -> Option<Inconsistency> {
        if self.stacks_block_height > next.stacks_block_height {
            Some(Inconsistency::EarlierHeight)
        } else if self.stacks_block_height == next.stacks_block_height && self.stacks_block_hash
            != next.stacks_block_hash {
            Some(Inconsistency::ConflictingHash)
        } else {
            None
        }
    }

    /// The event that a deposit gets when a reorganization has wiped its
    /// whole history: pending again, as of the reorganization.
    pub open spec fn reprocessing(chainstate: ChainstateView) -> DepositEventView {
        DepositEventView {
            status: DepositStatusEntryView::Pending,
            message: "Reprocessing deposit status after reorg."@,
            stacks_block_height: chainstate.stacks_block_height,
            stacks_block_hash: chainstate.stacks_block_hash,
        }
    }
}

impl View for DepositEvent {
    type V = DepositEventView;

    open spec fn view(&self) -> DepositEventView {
        DepositEventView {
            status: self.status@,
            message: self.message@,
            stacks_block_height: self.stacks_block_height,
            stacks_block_hash: self.stacks_block_hash@,
        }
    }
}

impl Clone for DepositEvent {
    fn clone(&self) -> (r: Self)
        ensures
            r@ == self@,
    {
        DepositEvent {
            status: self.status.clone(),
            message: self.message.clone(),
            stacks_block_height: self.stacks_block_height,
            stacks_block_hash: self.stacks_block_hash.clone(),
        }
    }
}

impl PartialEq for DepositEvent {
    fn eq(&self, other: &Self) -> (r: bool) {
        self.status == other.status && self.message == other.message && self.stacks_block_height
            == other.stacks_block_height && self.stacks_block_hash == other.stacks_block_hash
    }
}

impl PartialEqSpecImpl for DepositEvent {
    open spec fn obeys_eq_spec() -> bool {
        true
    }

    open spec fn eq_spec(&self, other: &Self) -> bool {
        self@ == other@
    }
}

impl Default for DepositEvent {
    fn default() -> (r: Self)
        ensures
            r@ == (DepositEventView {
                status: DepositStatusEntryView::Pending,
                message: Seq::empty(),
                stacks_block_height: 0,
                stacks_block_hash: Seq::empty(),
            }),
    {
        DepositEvent {
            status: DepositStatusEntry::Pending,
            message: String::new(),
            stacks_block_height: 0,
            stacks_block_hash: String::new(),
        }
    }
}

impl DepositEvent {
    /// Refuses `next_event` if it could not follow this event: if it is of an
    /// earlier block height, or of the same height on another block.
    pub fn ensure_following_event_is_valid(&self, next_event: &DepositEvent) -> (r: Result<
        (),
        Error,
    >)
        ensures
            match self@.following_fault(next_event@) {
                None => r is Ok,
                Some(fault) => r matches Err(e) && e@ == ErrorView::InconsistentState(fault),
            },
    {
        if self.stacks_block_height > next_event.stacks_block_height {
            return Err(Error::InconsistentState(Inconsistency::EarlierHeight));
        } else if self.stacks_block_height == next_event.stacks_block_height
            && self.stacks_block_hash != next_event.stacks_block_hash {
            return Err(Error::InconsistentState(Inconsistency::ConflictingHash));
        }
        Ok(())
    }

    /// Whether the event survives a reorganization around `chainstate`.
    pub fn survives(&self, chainstate: &Chainstate) -> (r: bool)
        ensures
            r == self@.survives(chainstate@),
    {
        chainstate.stacks_block_height > self.stacks_block_height || (
        chainstate.stacks_block_height == self.stacks_block_height && chainstate.stacks_block_hash
            == self.stacks_block_hash)
    }
}

/// Mathematical value of a history: the values of its events, oldest first.
pub open spec fn history_view(history: Seq<DepositEvent>) -> Seq<DepositEventView> {
    history.map_values(|e: DepositEvent| e@)
}

/// The events of `history` that survive a reorganization around
/// `chainstate`, in their order.
pub open spec fn surviving(history: Seq<DepositEventView>, chainstate: ChainstateView) -> Seq<
    DepositEventView,
> {
    history.filter(|e: DepositEventView| e.survives(chainstate))
}

/// An entry of the deposit table.
#[derive(Debug)]
pub struct DepositEntry {
    /// The entry's key.
    pub key: DepositEntryKey,
    /// The entry's version, raised on each change.
    pub version: u64,
    /// Stacks address that receives the sBTC, in hex.
    pub recipient: String,
    /// Amount deposited, in satoshis.
    pub amount: u64,
    /// The deposit's parameters.
    pub parameters: DepositParametersEntry,
    /// The deposit's status: that of the latest event.
    pub status: DepositStatus,
    /// The reclaim script, in hex.
    pub reclaim_script: String,
    /// The deposit script, in hex.
    pub deposit_script: String,
    /// Stacks block height of the latest event.
    pub last_update_height: u64,
    /// Stacks block hash of the latest event.
    pub last_update_block_hash: String,
    /// How the deposit was fulfilled, while its status is confirmed.
    pub fulfillment: Option<Fulfillment>,
    /// The deposit's events, oldest first.
    pub history: Vec<DepositEvent>,
    /// Hash of the public keys of the reclaim script, where its form is known.
    pub reclaim_pubkeys_hash: Option<String>,
    /// Id of the transaction that replaced this one, while its status says so.
    pub replaced_by_tx: Option<String>,
}

/// Mathematical value of a [`DepositEntry`].
pub ghost struct DepositEntryView {
    pub key: DepositEntryKeyView,
    pub version: u64,
    pub recipient: Seq<char>,
    pub amount: u64,
    pub parameters: DepositParametersEntry,
    pub status: DepositStatus,
    pub reclaim_script: Seq<char>,
    pub deposit_script: Seq<char>,
    pub last_update_height: u64,
    pub last_update_block_hash: Seq<char>,
    pub fulfillment: Option<FulfillmentView>,
    pub history: Seq<DepositEventView>,
    pub reclaim_pubkeys_hash: Option<Seq<char>>,
    pub replaced_by_tx: Option<Seq<char>>,
}

impl DepositEntryView {
    /// What is wrong with the entry, if anything: the first of an empty
    /// history, or a block hash, a block height or a status that is not that
    /// of the latest event.
    pub open spec fn fault(self) -> Option<EntryFault> {
        if self.history.len() == 0 {
            Some(EntryFault::NoEvents)
        } else if self.last_update_block_hash != self.history.last().stacks_block_hash {
            Some(EntryFault::BlockHash)
        } else if self.last_update_height != self.history.last().stacks_block_height {
            Some(EntryFault::BlockHeight)
        } else if self.status != self.history.last().status.status() {
            Some(EntryFault::Status)
        } else {
            None
        }
    }

    /// The entry with its top-level fields taken from the latest event.
    pub open spec fn synchronized(self) -> DepositEntryView
        recommends
            self.history.len() > 0,
    {
        let latest = self.history.last();
        DepositEntryView {
            fulfillment: latest.status.fulfillment(),
            replaced_by_tx: latest.status.replaced_by_tx(),
            status: latest.status.status(),
            last_update_height: latest.stacks_block_height,
            last_update_block_hash: latest.stacks_block_hash,
            ..self
        }
    }

    /// The history that is left after a reorganization around `chainstate`:
    /// the surviving events, or, if none survives, one event that makes the
    /// deposit pending as of the reorganization.
    pub open spec fn history_after(self, chainstate: ChainstateView) -> Seq<DepositEventView> {
        let kept = surviving(self.history, chainstate);
        if kept.len() == 0 {
            seq![DepositEventView::reprocessing(chainstate)]
        } else {
            kept
        }
    }

    /// The entry after a reorganization around `chainstate`.
    pub open spec fn reorganized(self, chainstate: ChainstateView) -> DepositEntryView {
        (DepositEntryView { history: self.history_after(chainstate), ..self }).synchronized()
    }

    /// Whether `event` is already in the history, with nothing older than
    /// it after it.
    pub open spec fn holds_event(self, event: DepositEventView) -> bool {
        exists|i: int|
            0 <= i < self.history.len() && #[trigger] self.history[i] == event && forall|j: int|
                i <= j < self.history.len() ==> (#[trigger] self.history[j]).stacks_block_height
                    >= event.stacks_block_height
    }

    /// The resource that the ledger reports for a valid entry.
    pub open spec fn deposit(self) -> DepositView
        recommends
            self.fault() is None,
    {
        let latest = self.history.last();
        DepositView {
            bitcoin_txid: self.key.bitcoin_txid,
            bitcoin_tx_output_index: self.key.bitcoin_tx_output_index,
            recipient: self.recipient,
            amount: self.amount,
            last_update_height: self.last_update_height,
            last_update_block_hash: self.last_update_block_hash,
            status: latest.status.status(),
            status_message: latest.message,
            parameters: DepositParameters {
                max_fee: self.parameters.max_fee,
                lock_time: self.parameters.lock_time,
            },
            reclaim_script: self.reclaim_script,
            deposit_script: self.deposit_script,
            fulfillment: latest.status.fulfillment(),
            replaced_by_tx: latest.status.replaced_by_tx(),
        }
    }
}

impl View for DepositEntry {
    type V = DepositEntryView;

    open spec fn view(&self) -> DepositEntryView {
        DepositEntryView {
            key: self.key@,
            version: self.version,
            recipient: self.recipient@,
            amount: self.amount,
            parameters: self.parameters,
            status: self.status,
            reclaim_script: self.reclaim_script@,
            deposit_script: self.deposit_script@,
            last_update_height: self.last_update_height,
            last_update_block_hash: self.last_update_block_hash@,
            fulfillment: fulfillment_view(self.fulfillment),
            history: history_view(self.history@),
            reclaim_pubkeys_hash: text_view(self.reclaim_pubkeys_hash),
            replaced_by_tx: text_view(self.replaced_by_tx),
        }
    }
}

/// A copy of a history.
fn history_clone(history: &Vec<DepositEvent>) -> (r: Vec<DepositEvent>)
    ensures
        history_view(r@) == history_view(history@),
{
    let mut r: Vec<DepositEvent> = Vec::new();
    let mut i: usize = 0;
    while i < history.len()
        invariant
            i <= history.len(),
            r.len() == i,
            forall|j: int| 0 <= j < i ==> r@[j]@ == history@[j]@,
        decreases history.len() - i,
    {
        r.push(history[i].clone());
        i += 1;
    }
    assert(history_view(r@) =~= history_view(history@));
    r
}

/// Whether two histories hold the same events in the same order.
fn history_eq(a: &Vec<DepositEvent>, b: &Vec<DepositEvent>) -> (r: bool)
    ensures
        r == (history_view(a@) == history_view(b@)),
{
    if a.len() != b.len() {
        assert(history_view(a@).len() != history_view(b@).len());
        return false;
    }
    let mut i: usize = 0;
    while i < a.len()
        invariant
            a.len() == b.len(),
            i <= a.len(),
            forall|j: int| 0 <= j < i ==> a@[j]@ == b@[j]@,
        decreases a.len() - i,
    {
        if a[i] != b[i] {
            assert(history_view(a@)[i as int] != history_view(b@)[i as int]);
            return false;
        }
        i += 1;
    }
    assert(history_view(a@) =~= history_view(b@));
    true
}

/// Whether two optional strings are the same.
fn text_eq(a: &Option<String>, b: &Option<String>) -> (r: bool)
    ensures
        r == (text_view(*a) == text_view(*b)),
{
    match a {
        Some(x) => match b {
            Some(y) => *x == *y,
            None => false,
        },
        None => b.is_none(),
    }
}

/// A copy of an optional string.
fn text_clone(a: &Option<String>) -> (r: Option<String>)
    ensures
        text_view(r) == text_view(*a),
{
    match a {
        Some(x) => Some(x.clone()),
        None => None,
    }
}

impl Clone for DepositEntry {
    fn clone(&self) -> (r: Self)
        ensures
            r@ == self@,
    {
        DepositEntry {
            key: self.key.clone(),
            version: self.version,
            recipient: self.recipient.clone(),
            amount: self.amount,
            parameters: self.parameters,
            status: self.status,
            reclaim_script: self.reclaim_script.clone(),
            deposit_script: self.deposit_script.clone(),
            last_update_height: self.last_update_height,
            last_update_block_hash: self.last_update_block_hash.clone(),
            fulfillment: match &self.fulfillment {
                Some(f) => Some(f.clone()),
                None => None,
            },
            history: history_clone(&self.history),
            reclaim_pubkeys_hash: text_clone(&self.reclaim_pubkeys_hash),
            replaced_by_tx: text_clone(&self.replaced_by_tx),
        }
    }
}

impl PartialEq for DepositEntry {
    fn eq(&self, other: &Self) -> (r: bool) {
        let same_fulfillment = match &self.fulfillment {
            Some(x) => match &other.fulfillment {
                Some(y) => *x == *y,
                None => false,
            },
            None => other.fulfillment.is_none(),
        };
        self.key == other.key && self.version == other.version && self.recipient == other.recipient
            && self.amount == other.amount && self.parameters == other.parameters && self.status
            == other.status && self.reclaim_script == other.reclaim_script && self.deposit_script
            == other.deposit_script && self.last_update_height == other.last_update_height
            && self.last_update_block_hash == other.last_update_block_hash && same_fulfillment
            && history_eq(&self.history, &other.history) && text_eq(
            &self.reclaim_pubkeys_hash,
            &other.reclaim_pubkeys_hash,
        ) && text_eq(&self.replaced_by_tx, &other.replaced_by_tx)
    }
}

impl PartialEqSpecImpl for DepositEntry {
    open spec fn obeys_eq_spec() -> bool {
        true
    }

    open spec fn eq_spec(&self, other: &Self) -> bool {
        self@ == other@
    }
}

impl Default for DepositEntry {
    fn default() -> (r: Self)
        ensures
            r@ == (DepositEntryView {
                key: DepositEntryKeyView { bitcoin_txid: Seq::empty(), bitcoin_tx_output_index: 0 },
                version: 0,
                recipient: Seq::empty(),
                amount: 0,
                parameters: DepositParametersEntry { max_fee: 0, lock_time: 0 },
                status: DepositStatus::Pending,
                reclaim_script: Seq::empty(),
                deposit_script: Seq::empty(),
                last_update_height: 0,
                last_update_block_hash: Seq::empty(),
                fulfillment: None,
                history: Seq::empty(),
                reclaim_pubkeys_hash: None,
                replaced_by_tx: None,
            }),
    {
        let r = DepositEntry {
            key: DepositEntryKey::default(),
            version: 0,
            recipient: String::new(),
            amount: 0,
            parameters: DepositParametersEntry::default(),
            status: DepositStatus::Pending,
            reclaim_script: String::new(),
            deposit_script: String::new(),
            last_update_height: 0,
            last_update_block_hash: String::new(),
            fulfillment: None,
            history: Vec::new(),
            reclaim_pubkeys_hash: None,
            replaced_by_tx: None,
        };
        assert(r@.history =~= Seq::empty());
        r
    }
}

impl DepositEntry {
    /// The name of the table field that holds the version.
    pub fn version_field() -> (r: &'static str)
        ensures
            r@ == "Version"@,
    {
        "Version"
    }

    /// The entry's version.
    pub fn get_version(&self) -> (r: u64)
        ensures
            r == self.version,
    {
        self.version
    }

    /// Raises the entry's version by one.
    pub fn increment_version(&mut self)
        requires
            old(self).version < u64::MAX,
        ensures
            final(self)@ == (DepositEntryView {
                version: (old(self).version + 1) as u64,
                ..old(self)@
            }),
    {
        self.version += 1;
    }

    /// The entry's key.
    pub fn key(&self) -> (r: DepositEntryKey)
        ensures
            r@ == self@.key,
    {
        DepositEntryKey {
            bitcoin_txid: self.key.bitcoin_txid.clone(),
            bitcoin_tx_output_index: self.key.bitcoin_tx_output_index,
        }
    }

    /// Checks that the top-level fields agree with the latest event, and
    /// says what is wrong where they do not.
    pub fn validate(&self) -> (r: Result<(), Error>)
        ensures
            match self@.fault() {
                None => r is Ok,
                Some(fault) => r matches Err(e) && e@ == ErrorView::InvalidDepositEntry(
                    fault,
                    self@.key,
                ),
            },
    {
        let latest_event: &DepositEvent = match self.latest_event() {
            Ok(event) => event,
            Err(e) => {
                return Err(e);
            },
        };
        if self.last_update_block_hash != latest_event.stacks_block_hash {
            return Err(Error::InvalidDepositEntry(EntryFault::BlockHash, self.key.clone()));
        }
        if self.last_update_height != latest_event.stacks_block_height {
            return Err(Error::InvalidDepositEntry(EntryFault::BlockHeight, self.key.clone()));
        }
        if self.status != latest_event.status.status() {
            return Err(Error::InvalidDepositEntry(EntryFault::Status, self.key.clone()));
        }
        Ok(())
    }

    /// The latest event: the last of the history. An entry without events
    /// is refused.
    pub fn latest_event(&self) -> (r: Result<&DepositEvent, Error>)
        ensures
            self@.history.len() > 0 ==> (r matches Ok(event) && event@ == self@.history.last()
                && *event == self.history@.last()),
            self@.history.len() == 0 ==> (r matches Err(e) && e@ == ErrorView::InvalidDepositEntry(
                EntryFault::NoEvents,
                self@.key,
            )),
    {
        let n = self.history.len();
        if n == 0 {
            Err(Error::InvalidDepositEntry(EntryFault::NoEvents, self.key.clone()))
        } else {
            Ok(&self.history[n - 1])
        }
    }

    /// Rewrites the entry for a reorganization of the Stacks chain around
    /// `chainstate`: drops the events that did not survive it, makes the
    /// deposit pending again if none did, and synchronizes the top-level
    /// fields with the history that is left.
    pub fn reorganize_around(&mut self, chainstate: &Chainstate) -> (r: Result<(), Error>)
        ensures
            r is Ok,
            final(self)@ == old(self)@.reorganized(chainstate@),
            final(self)@.fault() is None,
    {
        let ghost before = self@;
        let mut kept: Vec<DepositEvent> = Vec::new();
        let n = self.history.len();
        let mut i: usize = 0;
        proof {
            reveal(Seq::filter);
            assert(before.history.take(0) =~= Seq::empty());
        }
        while i < n
            invariant
                i <= n,
                n == self.history.len(),
                self@ == before,
                history_view(kept@) == surviving(before.history.take(i as int), chainstate@),
            decreases n - i,
        {
            proof {
                reveal(Seq::filter);
                assert(before.history.take(i + 1).drop_last() =~= before.history.take(i as int));
                assert(before.history.take(i + 1).last() == self.history@[i as int]@);
            }
            let ghost kept_before = kept@;
            if self.history[i].survives(chainstate) {
                let event = self.history[i].clone();
                kept.push(event);
                assert(history_view(kept@) =~= history_view(kept_before).push(
                    self.history@[i as int]@,
                ));
            }
            i += 1;
        }
        assert(before.history.take(n as int) =~= before.history);
        if kept.len() == 0 {
            let event = DepositEvent {
                status: DepositStatusEntry::Pending,
                message: "Reprocessing deposit status after reorg.".to_string(),
                stacks_block_height: chainstate.stacks_block_height,
                stacks_block_hash: chainstate.stacks_block_hash.clone(),
            };
            kept.push(event);
            assert(history_view(kept@) =~= seq![DepositEventView::reprocessing(chainstate@)]);
        }
        self.history = kept;
        assert(self@ == (DepositEntryView {
            history: before.history_after(chainstate@),
            ..before
        }));
        self.synchronize_with_history()
    }

    /// Takes the top-level fields that mirror the latest event from it: the
    /// status with its fulfillment or replacement, and the block height and
    /// hash of the last update. An entry without events is refused and left
    /// as it is.
    pub fn synchronize_with_history(&mut self) -> (r: Result<(), Error>)
        ensures
            old(self)@.history.len() > 0 ==> r is Ok && final(self)@ == old(self)@.synchronized()
                && final(self)@.fault() is None,
            old(self)@.history.len() == 0 ==> final(self)@ == old(self)@ && (r matches Err(e) && e@
                == ErrorView::InvalidDepositEntry(EntryFault::NoEvents, old(self)@.key)),
    {
        let latest_event: DepositEvent = match self.latest_event() {
            Ok(event) => event.clone(),
            Err(e) => {
                return Err(e);
            },
        };
        let new_status: DepositStatus = latest_event.status.status();
        let new_last_update_height: u64 = latest_event.stacks_block_height;

        self.fulfillment = latest_event.status.fulfillment();
        self.replaced_by_tx = latest_event.status.replaced_by_tx();
        self.status = new_status;
        self.last_update_height = new_last_update_height;
        self.last_update_block_hash = latest_event.stacks_block_hash;
        Ok(())
    }
}

/// The events that survive a reorganization are events of the history, and
/// each of them survives.
proof fn lemma_surviving(history: Seq<DepositEventView>, chainstate: ChainstateView, i: int)
    requires
        0 <= i < surviving(history, chainstate).len(),
    ensures
        surviving(history, chainstate)[i].survives(chainstate),
        history.contains(surviving(history, chainstate)[i]),
    decreases history.len(),
{
    reveal(Seq::filter);
    let front = history.drop_last();
    let before = surviving(front, chainstate);
    if i < before.len() {
        lemma_surviving(front, chainstate, i);
        let k = choose|k: int| 0 <= k < front.len() && front[k] == before[i];
        assert(history[k] == before[i]);
    } else {
        assert(history[history.len() - 1] == history.last());
    }
}

/// A history whose events all survive a reorganization is left whole by
/// it.
proof fn lemma_all_survive(history: Seq<DepositEventView>, chainstate: ChainstateView)
    requires
        forall|i: int| 0 <= i < history.len() ==> (#[trigger] history[i]).survives(chainstate),
    ensures
        surviving(history, chainstate) == history,
    decreases history.len(),
{
    reveal(Seq::filter);
    if history.len() > 0 {
        let front = history.drop_last();
        assert forall|i: int| 0 <= i < front.len() implies (#[trigger] front[i]).survives(
            chainstate,
        ) by {
            assert(front[i] == history[i]);
        }
        lemma_all_survive(front, chainstate);
        assert(history.last() == history[history.len() - 1]);
        assert(front.push(history.last()) =~= history);
    }
}

/// After a reorganization the entry is valid, whatever it was before, and
/// none of its events is younger than the reorganization.
pub proof fn law_reorganized_entry_is_valid(entry: DepositEntryView, chainstate: ChainstateView)
    ensures
        entry.reorganized(chainstate).fault() is None,
        forall|i: int|
            0 <= i < entry.reorganized(chainstate).history.len() ==> (
            #[trigger] entry.reorganized(chainstate).history[i]).survives(chainstate),
{
    let history = entry.reorganized(chainstate).history;
    assert forall|i: int| 0 <= i < history.len() implies (#[trigger] history[i]).survives(
        chainstate,
    ) by {
        if surviving(entry.history, chainstate).len() > 0 {
            lemma_surviving(entry.history, chainstate, i);
        }
    }
}

/// Reorganizing an entry a second time around the same chain state changes
/// nothing.
pub proof fn law_reorganizing_twice_changes_nothing(
    entry: DepositEntryView,
    chainstate: ChainstateView,
)
    ensures
        entry.reorganized(chainstate).reorganized(chainstate) == entry.reorganized(chainstate),
{
    let once = entry.reorganized(chainstate);
    law_reorganized_entry_is_valid(entry, chainstate);
    lemma_all_survive(once.history, chainstate);
}

/// A reorganization around a chain state that no event is younger than, or
/// as old as on another block, leaves a valid entry as it is.
pub proof fn law_reorganizing_below_the_history_changes_nothing(
    entry: DepositEntryView,
    chainstate: ChainstateView,
)
    requires
        entry.fault() is None,
        entry.fulfillment == entry.history.last().status.fulfillment(),
        entry.replaced_by_tx == entry.history.last().status.replaced_by_tx(),
        forall|i: int|
            0 <= i < entry.history.len() ==> (#[trigger] entry.history[i]).survives(chainstate),
    ensures
        entry.reorganized(chainstate) == entry,
{
    lemma_all_survive(entry.history, chainstate);
}

impl Deposit {
    /// The resource for a table entry. An entry that is not valid is refused
    /// with what [`DepositEntry::validate`] says of it.
    pub fn try_from(deposit_entry: DepositEntry) -> (r: Result<Deposit, Error>)
        ensures
            match deposit_entry@.fault() {
                None => r matches Ok(deposit) && deposit@ == deposit_entry@.deposit(),
                Some(fault) => r matches Err(e) && e@ == ErrorView::InvalidDepositEntry(
                    fault,
                    deposit_entry@.key,
                ),
            },
    {
        match deposit_entry.validate() {
            Ok(()) => {},
            Err(e) => {
                return Err(e);
            },
        }
        let n = deposit_entry.history.len();
        let latest_event = &deposit_entry.history[n - 1];
        let status_message = latest_event.message.clone();
        let status: DepositStatus = latest_event.status.status();
        let fulfillment = latest_event.status.fulfillment();
        let replaced_by_tx = latest_event.status.replaced_by_tx();

        Ok(
            Deposit {
                bitcoin_txid: deposit_entry.key.bitcoin_txid,
                bitcoin_tx_output_index: deposit_entry.key.bitcoin_tx_output_index,
                recipient: deposit_entry.recipient,
                amount: deposit_entry.amount,
                last_update_height: deposit_entry.last_update_height,
                last_update_block_hash: deposit_entry.last_update_block_hash,
                status,
                status_message,
                parameters: DepositParameters {
                    max_fee: deposit_entry.parameters.max_fee,
                    lock_time: deposit_entry.parameters.lock_time,
                },
                reclaim_script: deposit_entry.reclaim_script,
                deposit_script: deposit_entry.deposit_script,
                fulfillment,
                replaced_by_tx,
            },
        )
    }
}

} // verus!
