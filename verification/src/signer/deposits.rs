//! Deposits: the two scripts of a deposit, and taking in the deposit
//! requests that the ledger knows.
//!
//! A deposit script is
//!
//! ```text
//! <max fee and recipient> OP_DROP <signers' public key> OP_CHECKSIG
//! ```
//!
//! where the first push holds the maximum fee as eight bytes, highest
//! first, and then the recipient, a Stacks principal in its wire form. A
//! reclaim script is
//!
//! ```text
//! <lock time> OP_CHECKSEQUENCEVERIFY <rest>
//! ```
//!
//! where the lock time is a number of blocks, pushed in the shortest way.

use super::classify::{infos_view, BitcoinTxInfo, BitcoinTxInfoView};
use super::error::Error;
use super::model::{
    bytes_between, bytes_clone, hash_at, hash_from, lemma_hash_from, BitcoinTxId, DepositRequest,
    DepositRequestView, OutPoint, XOnlyPublicKey,
};
use super::store::{Store, StoreView};
use super::table::{inserted_all, lemma_inserted_all_twice};
use super::transaction::{Transaction, TransactionView};
use vstd::bytes::{
    lemma_auto_spec_u64_to_from_le_bytes, spec_u64_from_le_bytes, spec_u64_to_le_bytes,
    u64_from_le_bytes,
};
use vstd::prelude::*;

verus! {

/// The opcode that drops the top of the stack.
pub const OP_DROP: u8 = 0x75;

/// The opcode that checks a signature.
pub const OP_CHECKSIG: u8 = 0xac;

/// The opcode that pushes the 32 bytes after it.
pub const OP_PUSHBYTES_32: u8 = 0x20;

/// The opcode that checks the age of the output that is spent.
pub const OP_CSV: u8 = 0xb2;

/// The opcode before the sixteen opcodes that push the numbers 1 to 16.
pub const OP_RESERVED: u8 = 0x50;

/// The greatest lock time: what the sixteen bits hold that count blocks.
pub const MAX_LOCK_TIME: u32 = 0xffff;

/// The greatest length of the name of a contract.
pub const MAX_CONTRACT_NAME: u8 = 40;

/// The length of a deposit script without the recipient.
pub const DEPOSIT_SCRIPT_FRAME: usize = 44;

/// Whether `bytes` are the wire form of a Stacks principal: of a standard
/// principal, which is the byte 5, a version below 32 and 20 bytes of
/// hash; or of a contract principal, which is the byte 6, a version below
/// 32, 20 bytes of hash, the length of the contract's name, from 1 to 40,
/// and the name.
pub open spec fn is_principal(bytes: Seq<u8>) -> bool {
    ||| bytes.len() == 22 && bytes[0] == 5 && bytes[1] < 32
    ||| bytes.len() >= 24 && bytes[0] == 6 && bytes[1] < 32 && 1 <= bytes[22] <= MAX_CONTRACT_NAME
        && bytes.len() == 23 + bytes[22]
}

/// The eight bytes of `value`, highest first.
pub open spec fn be_bytes(value: u64) -> Seq<u8> {
    spec_u64_to_le_bytes(value).reverse()
}

/// What a deposit script says.
#[derive(Debug)]
pub struct DepositScriptInputs {
    /// The signers' key that the deposit is locked to.
    pub signers_public_key: XOnlyPublicKey,
    /// The most that the signers may take as a fee, in satoshis.
    pub max_fee: u64,
    /// The Stacks principal that receives the sBTC, in its wire form.
    pub recipient: Vec<u8>,
}

/// Mathematical value of a [`DepositScriptInputs`].
pub ghost struct DepositScriptInputsView {
    /// The 32 bytes of the signers' key.
    pub signers_public_key: Seq<u8>,
    pub max_fee: u64,
    pub recipient: Seq<u8>,
}

impl View for DepositScriptInputs {
    type V = DepositScriptInputsView;

    open spec fn view(&self) -> DepositScriptInputsView {
        DepositScriptInputsView {
            signers_public_key: self.signers_public_key.bytes@,
            max_fee: self.max_fee,
            recipient: self.recipient@,
        }
    }
}

impl DepositScriptInputsView {
    /// Whether a deposit script can say this: the key has 32 bytes, and
    /// the recipient is a principal.
    pub open spec fn is_valid(self) -> bool {
        self.signers_public_key.len() == 32 && is_principal(self.recipient)
    }

    /// The deposit script that says this.
    pub open spec fn deposit_script(self) -> Seq<u8> {
        seq![(8 + self.recipient.len()) as u8] + be_bytes(self.max_fee) + self.recipient + seq![
            OP_DROP,
            OP_PUSHBYTES_32,
        ] + self.signers_public_key + seq![OP_CHECKSIG]
    }
}

/// What the deposit script `script` says, if it is one: it is one push of
/// eight bytes and a principal, `OP_DROP`, a push of 32 bytes, and
/// `OP_CHECKSIG`.
pub open spec fn deposit_script_inputs(script: Seq<u8>) -> Option<DepositScriptInputsView> {
    let n = script.len() - DEPOSIT_SCRIPT_FRAME;
    if script.len() >= DEPOSIT_SCRIPT_FRAME && script[0] == 8 + n && is_principal(
        script.subrange(9, 9 + n),
    ) && script[9 + n] == OP_DROP && script[10 + n] == OP_PUSHBYTES_32 && script[43 + n]
        == OP_CHECKSIG {
        Some(
            DepositScriptInputsView {
                signers_public_key: script.subrange(11 + n, 43 + n),
                max_fee: spec_u64_from_le_bytes(script.subrange(1, 9).reverse()),
                recipient: script.subrange(9, 9 + n),
            },
        )
    } else {
        None
    }
}

/// Whether `bytes` are the wire form of a Stacks principal.
pub fn check_principal(bytes: &Vec<u8>) -> (r: bool)
    ensures
        r == is_principal(bytes@),
{
    let n = bytes.len();
    if n == 22 {
        bytes[0] == 5 && bytes[1] < 32
    } else if n >= 24 {
        bytes[0] == 6 && bytes[1] < 32 && 1 <= bytes[22] && bytes[22] <= MAX_CONTRACT_NAME && n
            == 23 + bytes[22] as usize
    } else {
        false
    }
}

impl DepositScriptInputs {
    /// Reads the deposit script `script`. Gives nothing if it is not of the
    /// form of a deposit script.
    pub fn parse(script: &Vec<u8>) -> (r: Option<DepositScriptInputs>)
        ensures
            match deposit_script_inputs(script@) {
                Some(inputs) => r matches Some(found) && found@ == inputs,
                None => r is None,
            },
    {
        let len = script.len();
        if len < DEPOSIT_SCRIPT_FRAME {
            return None;
        }
        let n = len - DEPOSIT_SCRIPT_FRAME;
        if n > 247 || script[0] != 8 + n as u8 {
            return None;
        }
        let recipient = bytes_between(script, 9, 9 + n);
        if !check_principal(&recipient) {
            return None;
        }
        if script[9 + n] != OP_DROP || script[10 + n] != OP_PUSHBYTES_32 || script[43 + n]
            != OP_CHECKSIG {
            return None;
        }
        let mut fee_bytes = bytes_between(script, 1, 9);
        reverse_bytes(&mut fee_bytes);
        let max_fee = u64_from_le_bytes(fee_bytes.as_slice());
        Some(
            DepositScriptInputs {
                signers_public_key: hash_at(script, 11 + n),
                max_fee,
                recipient,
            },
        )
    }
}

/// Puts `bytes` in the opposite order.
fn reverse_bytes(bytes: &mut Vec<u8>)
    ensures
        final(bytes)@ == old(bytes)@.reverse(),
{
    let n = bytes.len();
    let ghost given = bytes@;
    let mut out: Vec<u8> = Vec::new();
    let mut i: usize = 0;
    while i < n
        invariant
            i <= n,
            n == bytes.len(),
            bytes@ == given,
            out.len() == i,
            forall|j: int| 0 <= j < i ==> out@[j] == given[n - 1 - j],
        decreases n - i,
    {
        out.push(bytes[n - 1 - i]);
        i += 1;
    }
    *bytes = out;
    assert(bytes@ =~= given.reverse());
}

/// A script that says something is the deposit script that says it.
pub proof fn law_deposit_script_is_read_back(script: Seq<u8>)
    ensures
        deposit_script_inputs(script) matches Some(inputs) ==> inputs.is_valid()
            && inputs.deposit_script() == script,
{
    if let Some(inputs) = deposit_script_inputs(script) {
        let n = script.len() - DEPOSIT_SCRIPT_FRAME;
        lemma_auto_spec_u64_to_from_le_bytes();
        let fee = script.subrange(1, 9);
        assert(fee.reverse().len() == 8);
        assert(be_bytes(inputs.max_fee) =~= fee) by {
            assert(spec_u64_to_le_bytes(inputs.max_fee) == fee.reverse());
            assert(fee.reverse().reverse() =~= fee);
        }
        assert(inputs.deposit_script() =~= script);
    }
}

/// The deposit script that says something valid says just that.
pub proof fn law_deposit_script_round_trip(inputs: DepositScriptInputsView)
    requires
        inputs.is_valid(),
    ensures
        deposit_script_inputs(inputs.deposit_script()) == Some(inputs),
{
    let script = inputs.deposit_script();
    let n = inputs.recipient.len() as int;
    lemma_auto_spec_u64_to_from_le_bytes();
    assert(be_bytes(inputs.max_fee).len() == 8);
    assert(script.len() == DEPOSIT_SCRIPT_FRAME + n);
    assert(script.subrange(9, 9 + n) =~= inputs.recipient);
    assert(script.subrange(1, 9) =~= be_bytes(inputs.max_fee));
    assert(be_bytes(inputs.max_fee).reverse() =~= spec_u64_to_le_bytes(inputs.max_fee));
    assert(script.subrange(11 + n, 43 + n) =~= inputs.signers_public_key);
}

/// What a reclaim script says.
#[derive(Debug)]
pub struct ReclaimScriptInputs {
    /// The number of blocks after which the depositor may reclaim the
    /// deposit.
    pub lock_time: u32,
    /// The rest of the script, after the check of the lock time.
    pub script: Vec<u8>,
}

/// Mathematical value of a [`ReclaimScriptInputs`].
pub ghost struct ReclaimScriptInputsView {
    pub lock_time: u32,
    pub script: Seq<u8>,
}

impl View for ReclaimScriptInputs {
    type V = ReclaimScriptInputsView;

    open spec fn view(&self) -> ReclaimScriptInputsView {
        ReclaimScriptInputsView { lock_time: self.lock_time, script: self.script@ }
    }
}

/// The shortest push of the number `n`, which is at most `MAX_LOCK_TIME`:
/// one opcode for a number up to 16; else the count of the bytes and the
/// bytes of the number, lowest first, with one more byte, of zero, where
/// the highest bit of the number's bytes is set, since that bit is the
/// sign.
pub open spec fn lock_time_push(n: u32) -> Seq<u8> {
    if n == 0 {
        seq![0u8]
    } else if n <= 16 {
        seq![(OP_RESERVED + n) as u8]
    } else if n < 0x80 {
        seq![1u8, n as u8]
    } else if n < 0x100 {
        seq![2u8, n as u8, 0u8]
    } else if n < 0x8000 {
        seq![2u8, (n % 256) as u8, (n / 256) as u8]
    } else {
        seq![3u8, (n % 256) as u8, (n / 256) as u8, 0u8]
    }
}

impl ReclaimScriptInputsView {
    /// Whether a reclaim script can say this: the lock time fits in the
    /// sixteen bits that count blocks.
    pub open spec fn is_valid(self) -> bool {
        self.lock_time <= MAX_LOCK_TIME
    }

    /// The reclaim script that says this.
    pub open spec fn reclaim_script(self) -> Seq<u8> {
        lock_time_push(self.lock_time) + seq![OP_CSV] + self.script
    }
}

/// What the reclaim script `script` says, if it is one: it is the
/// shortest push of a lock time, `OP_CHECKSEQUENCEVERIFY`, and any rest.
pub open spec fn reclaim_script_inputs(script: Seq<u8>) -> Option<ReclaimScriptInputsView> {
    if script.len() >= 2 && script[0] == 0 && script[1] == OP_CSV {
        Some(ReclaimScriptInputsView { lock_time: 0, script: script.skip(2) })
    } else if script.len() >= 2 && OP_RESERVED < script[0] <= OP_RESERVED + 16 && script[1]
        == OP_CSV {
        Some(
            ReclaimScriptInputsView {
                lock_time: (script[0] - OP_RESERVED) as u32,
                script: script.skip(2),
            },
        )
    } else if script.len() >= 3 && script[0] == 1 && 16 < script[1] < 0x80 && script[2] == OP_CSV {
        Some(ReclaimScriptInputsView { lock_time: script[1] as u32, script: script.skip(3) })
    } else if script.len() >= 4 && script[0] == 2 && script[3] == OP_CSV && (if script[2] == 0 {
        script[1] >= 0x80
    } else {
        script[2] < 0x80
    }) {
        Some(
            ReclaimScriptInputsView {
                lock_time: (script[1] + 256 * script[2]) as u32,
                script: script.skip(4),
            },
        )
    } else if script.len() >= 5 && script[0] == 3 && script[4] == OP_CSV && script[3] == 0
        && script[2] >= 0x80 {
        Some(
            ReclaimScriptInputsView {
                lock_time: (script[1] + 256 * script[2]) as u32,
                script: script.skip(5),
            },
        )
    } else {
        None
    }
}

impl ReclaimScriptInputs {
    /// Reads the reclaim script `script`. Gives nothing if it is not of
    /// the form of a reclaim script.
    pub fn parse(script: &Vec<u8>) -> (r: Option<ReclaimScriptInputs>)
        ensures
            match reclaim_script_inputs(script@) {
                Some(inputs) => r matches Some(found) && found@ == inputs,
                None => r is None,
            },
    {
        let len = script.len();
        if len < 2 {
            return None;
        }
        let first = script[0];
        let (lock_time, at): (u32, usize) = if first == 0 && script[1] == OP_CSV {
            (0, 2)
        } else if OP_RESERVED < first && first <= OP_RESERVED + 16 && script[1] == OP_CSV {
            ((first - OP_RESERVED) as u32, 2)
        } else if len >= 3 && first == 1 && 16 < script[1] && script[1] < 0x80 && script[2]
            == OP_CSV {
            (script[1] as u32, 3)
        } else if len >= 4 && first == 2 && script[3] == OP_CSV && (if script[2] == 0 {
            script[1] >= 0x80
        } else {
            script[2] < 0x80
        }) {
            (script[1] as u32 + 256 * script[2] as u32, 4)
        } else if len >= 5 && first == 3 && script[4] == OP_CSV && script[3] == 0 && script[2]
            >= 0x80 {
            (script[1] as u32 + 256 * script[2] as u32, 5)
        } else {
            return None;
        };
        let rest = bytes_between(script, at, len);
        assert(script@.skip(at as int) =~= script@.subrange(at as int, len as int));
        Some(ReclaimScriptInputs { lock_time, script: rest })
    }
}

/// A script that says something is the reclaim script that says it.
pub proof fn law_reclaim_script_is_read_back(script: Seq<u8>)
    ensures
        reclaim_script_inputs(script) matches Some(inputs) ==> inputs.is_valid()
            && inputs.reclaim_script() == script,
{
    if let Some(inputs) = reclaim_script_inputs(script) {
        assert(inputs.reclaim_script() =~= script);
    }
}

/// The reclaim script that says something valid says just that.
pub proof fn law_reclaim_script_round_trip(inputs: ReclaimScriptInputsView)
    requires
        inputs.is_valid(),
    ensures
        reclaim_script_inputs(inputs.reclaim_script()) == Some(inputs),
{
    let script = inputs.reclaim_script();
    let push = lock_time_push(inputs.lock_time);
    assert(script.skip(push.len() as int + 1) =~= inputs.script);
    assert forall|i: int| 0 <= i < push.len() implies script[i] == push[i] by {}
    assert(script[push.len() as int] == OP_CSV);
}

/// A deposit as the ledger reports it.
#[derive(Debug)]
pub struct CreateDepositRequest {
    /// The output that made the deposit.
    pub outpoint: OutPoint,
    /// The deposit script.
    pub deposit_script: Vec<u8>,
    /// The reclaim script.
    pub reclaim_script: Vec<u8>,
}

/// Mathematical value of a [`CreateDepositRequest`].
pub ghost struct CreateDepositRequestView {
    pub outpoint: OutPoint,
    pub deposit_script: Seq<u8>,
    pub reclaim_script: Seq<u8>,
}

impl View for CreateDepositRequest {
    type V = CreateDepositRequestView;

    open spec fn view(&self) -> CreateDepositRequestView {
        CreateDepositRequestView {
            outpoint: self.outpoint,
            deposit_script: self.deposit_script@,
            reclaim_script: self.reclaim_script@,
        }
    }
}

impl Clone for CreateDepositRequest {
    fn clone(&self) -> (r: Self)
        ensures
            r@ == self@,
    {
        CreateDepositRequest {
            outpoint: self.outpoint,
            deposit_script: bytes_clone(&self.deposit_script),
            reclaim_script: bytes_clone(&self.reclaim_script),
        }
    }
}

impl CreateDepositRequestView {
    /// The deposit request that this makes when held against the
    /// transaction `tx` that the node has for it, or the reason why it makes
    /// none: the first of a transaction that the node does not know, a
    /// coinbase transaction, a transaction without the output, a deposit
    /// script that is none, and a reclaim script that is none.
    pub open spec fn validated(self, tx: Option<TransactionView>) -> Result<
        DepositRequestView,
        Error,
    > {
        match tx {
            None => Err(Error::BitcoinTxMissing(self.outpoint)),
            Some(tx) => if tx.is_coinbase() {
                Err(Error::BitcoinTxCoinbase(self.outpoint.txid))
            } else if self.outpoint.vout >= tx.output.len() {
                Err(Error::OutputMissing(self.outpoint))
            } else {
                match deposit_script_inputs(self.deposit_script) {
                    None => Err(Error::InvalidDepositScript(self.outpoint)),
                    Some(deposit) => match reclaim_script_inputs(self.reclaim_script) {
                        None => Err(Error::InvalidReclaimScript(self.outpoint)),
                        Some(reclaim) => Ok(
                            DepositRequestView {
                                txid: self.outpoint.txid,
                                output_index: self.outpoint.vout,
                                spend_script: self.deposit_script,
                                reclaim_script: self.reclaim_script,
                                recipient: deposit.recipient,
                                amount: tx.output[self.outpoint.vout as int].value,
                                max_fee: deposit.max_fee,
                                lock_time: reclaim.lock_time,
                                signers_public_key: hash_from(deposit.signers_public_key),
                            },
                        ),
                    },
                }
            },
        }
    }
}

impl CreateDepositRequest {
    /// Holds the deposit against the transaction `tx` that the node has
    /// for it, if it has one, and gives the deposit request that it makes.
    /// A deposit made by a coinbase transaction is refused, and so is one
    /// whose scripts are not of the form of a deposit script and a reclaim
    /// script.
    pub fn validate_tx(&self, tx: Option<&Transaction>) -> (r: Result<DepositRequest, Error>)
        ensures
            match self@.validated(
                match tx {
                    Some(tx) => Some(tx@),
                    None => None,
                },
            ) {
                Ok(request) => r matches Ok(found) && found@ == request,
                Err(e) => r matches Err(found) && found == e,
            },
    {
        let tx = match tx {
            Some(tx) => tx,
            None => {
                return Err(Error::BitcoinTxMissing(self.outpoint));
            },
        };
        if tx.is_coinbase() {
            return Err(Error::BitcoinTxCoinbase(self.outpoint.txid));
        }
        let vout = self.outpoint.vout as usize;
        if vout >= tx.output.len() {
            return Err(Error::OutputMissing(self.outpoint));
        }
        let deposit = match DepositScriptInputs::parse(&self.deposit_script) {
            Some(deposit) => deposit,
            None => {
                return Err(Error::InvalidDepositScript(self.outpoint));
            },
        };
        let reclaim = match ReclaimScriptInputs::parse(&self.reclaim_script) {
            Some(reclaim) => reclaim,
            None => {
                return Err(Error::InvalidReclaimScript(self.outpoint));
            },
        };
        proof {
            assert(tx@.output[vout as int] == tx.output@[vout as int]@);
            lemma_hash_from(deposit.signers_public_key);
        }
        Ok(
            DepositRequest {
                txid: self.outpoint.txid,
                output_index: self.outpoint.vout,
                spend_script: bytes_clone(&self.deposit_script),
                reclaim_script: bytes_clone(&self.reclaim_script),
                recipient: deposit.recipient,
                amount: tx.output[vout].value,
                max_fee: deposit.max_fee,
                lock_time: reclaim.lock_time,
                signers_public_key: deposit.signers_public_key,
            },
        )
    }
}

/// Mathematical value of a list of deposits.
pub open spec fn candidates_view(candidates: Seq<CreateDepositRequest>) -> Seq<
    CreateDepositRequestView,
> {
    candidates.map_values(|c: CreateDepositRequest| c@)
}

/// The first of the transactions `infos` with id `txid`.
pub open spec fn tx_with_id(infos: Seq<BitcoinTxInfoView>, txid: BitcoinTxId) -> Option<
    TransactionView,
>
    decreases infos.len(),
{
    if infos.len() == 0 {
        None
    } else {
        match tx_with_id(infos.drop_last(), txid) {
            Some(tx) => Some(tx),
            None => if infos.last().txid == txid {
                Some(infos.last().tx)
            } else {
                None
            },
        }
    }
}

/// The first of the transactions `infos` with id `txid`.
pub fn find_tx<'a>(infos: &'a Vec<BitcoinTxInfo>, txid: &BitcoinTxId) -> (r: Option<
    &'a Transaction,
>)
    ensures
        match tx_with_id(infos_view(infos@), *txid) {
            Some(tx) => r matches Some(found) && found@ == tx,
            None => r is None,
        },
{
    let ghost views = infos_view(infos@);
    let mut i: usize = 0;
    assert(views.take(0) =~= Seq::empty());
    while i < infos.len()
        invariant
            i <= infos.len(),
            views == infos_view(infos@),
            tx_with_id(views.take(i as int), *txid) is None,
        decreases infos.len() - i,
    {
        proof {
            assert(views.take(i + 1).drop_last() =~= views.take(i as int));
            assert(views.take(i + 1).last() == infos@[i as int]@);
        }
        if infos[i].txid.same(txid) {
            proof {
                lemma_tx_found(views, *txid, i as int, infos.len() as int);
                assert(views.take(infos.len() as int) =~= views);
            }
            return Some(&infos[i].tx);
        }
        i += 1;
    }
    assert(views.take(infos.len() as int) =~= views);
    None
}

/// The first transaction with an id stays the first however many
/// transactions follow.
proof fn lemma_tx_found(infos: Seq<BitcoinTxInfoView>, txid: BitcoinTxId, i: int, n: int)
    requires
        0 <= i < n <= infos.len(),
        tx_with_id(infos.take(i), txid) is None,
        infos[i].txid == txid,
    ensures
        tx_with_id(infos.take(n), txid) == Some(infos[i].tx),
    decreases n - i,
{
    assert(infos.take(n).drop_last() =~= infos.take(n - 1));
    if n > i + 1 {
        lemma_tx_found(infos, txid, i, n - 1);
    }
}

/// The deposit requests that the deposits `candidates` make when each is
/// held against the transaction that the node, whose transactions are
/// `node`, has for it: those of the deposits that are not refused, in
/// their order.
pub open spec fn accepted(
    node: Seq<BitcoinTxInfoView>,
    candidates: Seq<CreateDepositRequestView>,
) -> Seq<DepositRequestView>
    decreases candidates.len(),
{
    if candidates.len() == 0 {
        Seq::empty()
    } else {
        let before = accepted(node, candidates.drop_last());
        let last = candidates.last();
        match last.validated(tx_with_id(node, last.outpoint.txid)) {
            Ok(request) => before.push(request),
            Err(_) => before,
        }
    }
}

/// The reasons for which deposits among `candidates` are refused, in the
/// order of the deposits.
pub open spec fn refused(
    node: Seq<BitcoinTxInfoView>,
    candidates: Seq<CreateDepositRequestView>,
) -> Seq<Error>
    decreases candidates.len(),
{
    if candidates.len() == 0 {
        Seq::empty()
    } else {
        let before = refused(node, candidates.drop_last());
        let last = candidates.last();
        match last.validated(tx_with_id(node, last.outpoint.txid)) {
            Ok(_) => before,
            Err(e) => before.push(e),
        }
    }
}

impl StoreView {
    /// The store after the deposits `candidates` were taken in.
    pub open spec fn with_deposits_loaded(
        self,
        node: Seq<BitcoinTxInfoView>,
        candidates: Seq<CreateDepositRequestView>,
    ) -> StoreView {
        StoreView {
            deposit_requests: inserted_all::<DepositRequest>(
                self.deposit_requests,
                accepted(node, candidates),
            ),
            ..self
        }
    }
}

/// Takes in the deposits `candidates` that the ledger knows, however long
/// ago they were confirmed: holds each against the transaction that the
/// node, whose transactions are `node`, has for it, and writes to `store`
/// the deposit request that it makes, unless the store holds one for its
/// output. A deposit that is refused does not keep the others from being
/// taken in. Gives the reasons for which deposits were refused, in the order
/// of the deposits.
pub fn load_latest_deposit_requests(
    store: &mut Store,
    node: &Vec<BitcoinTxInfo>,
    candidates: &Vec<CreateDepositRequest>,
) -> (errors: Vec<Error>)
    ensures
        final(store)@ == old(store)@.with_deposits_loaded(
            infos_view(node@),
            candidates_view(candidates@),
        ),
        errors@ == refused(infos_view(node@), candidates_view(candidates@)),
        old(store)@.wf() ==> final(store)@.wf(),
{
    let ghost before = store@;
    let ghost views = candidates_view(candidates@);
    let mut errors: Vec<Error> = Vec::new();
    let mut i: usize = 0;
    proof {
        assert(views.take(0) =~= Seq::empty());
        assert(store@ == before.with_deposits_loaded(infos_view(node@), views.take(0)));
    }
    while i < candidates.len()
        invariant
            i <= candidates.len(),
            views == candidates_view(candidates@),
            store@ == before.with_deposits_loaded(infos_view(node@), views.take(i as int)),
            errors@ == refused(infos_view(node@), views.take(i as int)),
            before.wf() ==> store@.wf(),
        decreases candidates.len() - i,
    {
        proof {
            assert(views.take(i + 1).drop_last() =~= views.take(i as int));
            assert(views.take(i + 1).last() == candidates@[i as int]@);
        }
        let candidate = &candidates[i];
        let ghost held = accepted(infos_view(node@), views.take(i as int));
        match candidate.validate_tx(find_tx(node, &candidate.outpoint.txid)) {
            Ok(request) => {
                proof {
                    assert(held.push(request@).drop_last() =~= held);
                }
                store.write_deposit_request(&request);
            },
            Err(e) => {
                errors.push(e);
            },
        }
        i += 1;
    }
    assert(views.take(candidates.len() as int) =~= views);
    errors
}

/// Taking in the same deposits a second time changes nothing: each deposit
/// is taken in once.
pub proof fn law_deposits_are_loaded_once(
    store: StoreView,
    node: Seq<BitcoinTxInfoView>,
    candidates: Seq<CreateDepositRequestView>,
)
    ensures
        store.with_deposits_loaded(node, candidates).with_deposits_loaded(node, candidates)
            == store.with_deposits_loaded(node, candidates),
{
    lemma_inserted_all_twice::<DepositRequest>(
        store.deposit_requests,
        accepted(node, candidates),
    );
}

} // verus!
