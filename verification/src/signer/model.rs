//! The rows that the signers keep of the two chains and of the requests
//! made to them.

use vstd::prelude::*;
use vstd::std_specs::cmp::PartialEqSpecImpl;
use vstd::std_specs::convert::FromSpecImpl;

verus! {

/// Whether two byte strings hold the same bytes.
pub fn bytes_eq(a: &Vec<u8>, b: &Vec<u8>) -> (r: bool)
    ensures
        r == (a@ == b@),
{
    if a.len() != b.len() {
        return false;
    }
    let mut i: usize = 0;
    while i < a.len()
        invariant
            a.len() == b.len(),
            i <= a.len(),
            forall|j: int| 0 <= j < i ==> a@[j] == b@[j],
        decreases a.len() - i,
    {
        if a[i] != b[i] {
            return false;
        }
        i += 1;
    }
    assert(a@ =~= b@);
    true
}

/// A copy of a byte string.
pub fn bytes_clone(a: &Vec<u8>) -> (r: Vec<u8>)
    ensures
        r@ == a@,
{
    let mut r: Vec<u8> = Vec::new();
    let mut i: usize = 0;
    while i < a.len()
        invariant
            i <= a.len(),
            r@ == a@.take(i as int),
        decreases a.len() - i,
    {
        r.push(a[i]);
        assert(a@.take(i + 1) =~= a@.take(i as int).push(a@[i as int]));
        i += 1;
    }
    assert(a@.take(a.len() as int) =~= a@);
    r
}

/// A 256-bit hash.
#[derive(Clone, Copy, Debug, Eq, Hash)]
pub struct Hash256 {
    /// The hash's 32 bytes.
    pub bytes: [u8; 32],
}

impl PartialEq for Hash256 {
    fn eq(&self, other: &Self) -> (r: bool) {
        self.same(other)
    }
}

impl PartialEqSpecImpl for Hash256 {
    open spec fn obeys_eq_spec() -> bool {
        true
    }

    open spec fn eq_spec(&self, other: &Self) -> bool {
        *self == *other
    }
}

impl Hash256 {
    /// Whether two hashes hold the same bytes.
    pub fn same(&self, other: &Self) -> (r: bool)
        ensures
            r == (*self == *other),
    {
        let mut i: usize = 0;
        while i < 32
            invariant
                i <= 32,
                forall|j: int| 0 <= j < i ==> self.bytes[j] == other.bytes[j],
            decreases 32 - i,
        {
            if self.bytes[i] != other.bytes[i] {
                return false;
            }
            i += 1;
        }
        assert(self.bytes =~= other.bytes);
        true
    }

    /// The hash whose bytes are all zero.
    pub fn zero() -> (r: Self)
        ensures
            r.is_zero(),
    {
        Hash256 { bytes: [0u8;32] }
    }

    /// Whether every byte of the hash is zero.
    pub open spec fn is_zero(&self) -> bool {
        forall|i: int| 0 <= i < 32 ==> self.bytes[i] == 0
    }

    /// Whether every byte of the hash is zero.
    pub fn all_zero(&self) -> (r: bool)
        ensures
            r == self.is_zero(),
    {
        let mut i: usize = 0;
        while i < 32
            invariant
                i <= 32,
                forall|j: int| 0 <= j < i ==> self.bytes[j] == 0,
            decreases 32 - i,
        {
            if self.bytes[i] != 0 {
                return false;
            }
            i += 1;
        }
        true
    }
}

/// The hash that holds the 32 bytes `bytes`.
pub open spec fn hash_from(bytes: Seq<u8>) -> Hash256 {
    Hash256 { bytes: choose|a: [u8; 32]| a@ == bytes }
}

/// A hash is the hash that holds its bytes.
pub proof fn lemma_hash_from(hash: Hash256)
    ensures
        hash_from(hash.bytes@) == hash,
{
    let a = hash_from(hash.bytes@).bytes;
    assert(a@ == hash.bytes@);
    assert(a =~= hash.bytes);
}

/// The hash made of the 32 bytes of `bytes` from `at` on.
pub fn hash_at(bytes: &Vec<u8>, at: usize) -> (r: Hash256)
    requires
        at + 32 <= bytes.len(),
    ensures
        r == hash_from(bytes@.subrange(at as int, at + 32)),
        r.bytes@ == bytes@.subrange(at as int, at + 32),
{
    let mut out = [0u8;32];
    let mut i: usize = 0;
    while i < 32
        invariant
            i <= 32,
            at + 32 <= bytes.len(),
            forall|j: int| 0 <= j < i ==> out[j] == bytes@[at + j],
        decreases 32 - i,
    {
        out[i] = bytes[at + i];
        i += 1;
    }
    let r = Hash256 { bytes: out };
    proof {
        assert(out@ =~= bytes@.subrange(at as int, at + 32));
        lemma_hash_from(r);
    }
    r
}

/// A copy of the bytes of `bytes` from `from` up to `to`.
pub fn bytes_between(bytes: &Vec<u8>, from: usize, to: usize) -> (r: Vec<u8>)
    requires
        from <= to <= bytes.len(),
    ensures
        r@ == bytes@.subrange(from as int, to as int),
{
    let mut r: Vec<u8> = Vec::new();
    let mut i: usize = from;
    while i < to
        invariant
            from <= i <= to <= bytes.len(),
            r@ == bytes@.subrange(from as int, i as int),
        decreases to - i,
    {
        r.push(bytes[i]);
        assert(bytes@.subrange(from as int, i + 1) =~= bytes@.subrange(from as int, i as int).push(
            bytes@[i as int],
        ));
        i += 1;
    }
    r
}

/// Hash of a Bitcoin block.
pub type BitcoinBlockHash = Hash256;

/// Id of a Bitcoin transaction.
pub type BitcoinTxId = Hash256;

/// Hash of a Stacks block.
pub type StacksBlockHash = Hash256;

/// Id of a Stacks transaction.
pub type StacksTxId = Hash256;

/// A public key without its parity: 32 bytes.
pub type XOnlyPublicKey = Hash256;

/// A script that locks an output.
pub type ScriptPubKey = Vec<u8>;

/// Mathematical value of a list of scripts.
pub open spec fn scripts_view(scripts: Seq<ScriptPubKey>) -> Seq<Seq<u8>> {
    scripts.map_values(|s: ScriptPubKey| s@)
}

/// A public key in its compressed form.
#[derive(Clone, Copy, Debug, Eq, Hash)]
pub struct PublicKey {
    /// The key's 33 bytes.
    pub bytes: [u8; 33],
}

impl PublicKey {
    /// Whether two keys hold the same bytes.
    pub fn same(&self, other: &Self) -> (r: bool)
        ensures
            r == (*self == *other),
    {
        let mut i: usize = 0;
        while i < 33
            invariant
                i <= 33,
                forall|j: int| 0 <= j < i ==> self.bytes[j] == other.bytes[j],
            decreases 33 - i,
        {
            if self.bytes[i] != other.bytes[i] {
                return false;
            }
            i += 1;
        }
        assert(self.bytes =~= other.bytes);
        true
    }
}

impl PartialEq for PublicKey {
    fn eq(&self, other: &Self) -> (r: bool) {
        self.same(other)
    }
}

impl PartialEqSpecImpl for PublicKey {
    open spec fn obeys_eq_spec() -> bool {
        true
    }

    open spec fn eq_spec(&self, other: &Self) -> bool {
        *self == *other
    }
}

/// A row of one of the signers' tables. No table holds two rows with the
/// same key.
pub trait Row: View + Sized {
    /// What tells one row of the table from another.
    type Key;

    /// The key of the row whose value is `v`.
    spec fn key_of(v: Self::V) -> Self::Key;

    /// Whether two rows have the same key.
    fn same_key(&self, other: &Self) -> (r: bool)
        ensures
            r == (Self::key_of(self@) == Self::key_of(other@)),
    ;

    /// Whether two rows hold the same values.
    fn same(&self, other: &Self) -> (r: bool)
        ensures
            r == (self@ == other@),
    ;

    /// A copy of the row.
    fn copy(&self) -> (r: Self)
        ensures
            r@ == self@,
    ;
}

/// A Bitcoin block header: what the chain-data source tells of a block.
#[derive(Clone, Copy, Debug, Eq, Hash)]
pub struct BitcoinBlockHeader {
    /// The block's hash.
    pub hash: BitcoinBlockHash,
    /// The block's height.
    pub height: u64,
    /// Hash of the block before it.
    pub parent_hash: BitcoinBlockHash,
}

impl PartialEq for BitcoinBlockHeader {
    fn eq(&self, other: &Self) -> (r: bool) {
        self.hash.same(&other.hash) && self.height == other.height && self.parent_hash.same(
            &other.parent_hash,
        )
    }
}

impl PartialEqSpecImpl for BitcoinBlockHeader {
    open spec fn obeys_eq_spec() -> bool {
        true
    }

    open spec fn eq_spec(&self, other: &Self) -> bool {
        *self == *other
    }
}

/// A Bitcoin block that the signers know.
#[derive(Clone, Copy, Debug, Eq, Hash)]
pub struct BitcoinBlock {
    /// The block's hash.
    pub block_hash: BitcoinBlockHash,
    /// The block's height.
    pub block_height: u64,
    /// Hash of the block before it.
    pub parent_hash: BitcoinBlockHash,
}

impl View for BitcoinBlock {
    type V = BitcoinBlock;

    open spec fn view(&self) -> BitcoinBlock {
        *self
    }
}

impl Row for BitcoinBlock {
    type Key = BitcoinBlockHash;

    open spec fn key_of(v: BitcoinBlock) -> BitcoinBlockHash {
        v.block_hash
    }

    fn same_key(&self, other: &Self) -> (r: bool) {
        self.block_hash.same(&other.block_hash)
    }

    fn same(&self, other: &Self) -> (r: bool) {
        self.block_hash.same(&other.block_hash) && self.block_height == other.block_height
            && self.parent_hash.same(&other.parent_hash)
    }

    fn copy(&self) -> (r: Self) {
        *self
    }
}

impl PartialEq for BitcoinBlock {
    fn eq(&self, other: &Self) -> (r: bool) {
        self.same(other)
    }
}

impl PartialEqSpecImpl for BitcoinBlock {
    open spec fn obeys_eq_spec() -> bool {
        true
    }

    open spec fn eq_spec(&self, other: &Self) -> bool {
        *self == *other
    }
}

impl From<BitcoinBlockHeader> for BitcoinBlock {
    fn from(header: BitcoinBlockHeader) -> (r: Self) {
        BitcoinBlock::from_header(header)
    }
}

impl FromSpecImpl<BitcoinBlockHeader> for BitcoinBlock {
    open spec fn obeys_from_spec() -> bool {
        true
    }

    open spec fn from_spec(header: BitcoinBlockHeader) -> Self {
        BitcoinBlock {
            block_hash: header.hash,
            block_height: header.height,
            parent_hash: header.parent_hash,
        }
    }
}

impl BitcoinBlock {
    /// The block that a header describes.
    pub fn from_header(header: BitcoinBlockHeader) -> (r: Self)
        ensures
            r == (BitcoinBlock {
                block_hash: header.hash,
                block_height: header.height,
                parent_hash: header.parent_hash,
            }),
    {
        BitcoinBlock {
            block_hash: header.hash,
            block_height: header.height,
            parent_hash: header.parent_hash,
        }
    }
}

/// A Bitcoin block named by hash and height.
#[derive(Clone, Copy, Debug, Eq, Hash)]
pub struct BitcoinBlockRef {
    /// The block's hash.
    pub block_hash: BitcoinBlockHash,
    /// The block's height.
    pub block_height: u64,
}

impl PartialEq for BitcoinBlockRef {
    fn eq(&self, other: &Self) -> (r: bool) {
        self.block_hash.same(&other.block_hash) && self.block_height == other.block_height
    }
}

impl PartialEqSpecImpl for BitcoinBlockRef {
    open spec fn obeys_eq_spec() -> bool {
        true
    }

    open spec fn eq_spec(&self, other: &Self) -> bool {
        *self == *other
    }
}

impl From<BitcoinBlock> for BitcoinBlockRef {
    fn from(block: BitcoinBlock) -> (r: Self) {
        BitcoinBlockRef { block_hash: block.block_hash, block_height: block.block_height }
    }
}

impl FromSpecImpl<BitcoinBlock> for BitcoinBlockRef {
    open spec fn obeys_from_spec() -> bool {
        true
    }

    open spec fn from_spec(block: BitcoinBlock) -> Self {
        BitcoinBlockRef { block_hash: block.block_hash, block_height: block.block_height }
    }
}

/// A Stacks block that the signers know.
#[derive(Clone, Copy, Debug, Eq, Hash)]
pub struct StacksBlock {
    /// The block's hash.
    pub block_hash: StacksBlockHash,
    /// The block's height.
    pub block_height: u64,
    /// Hash of the block before it.
    pub parent_hash: StacksBlockHash,
    /// Hash of the Bitcoin block that the block is anchored to.
    pub bitcoin_anchor: BitcoinBlockHash,
}

impl View for StacksBlock {
    type V = StacksBlock;

    open spec fn view(&self) -> StacksBlock {
        *self
    }
}

impl Row for StacksBlock {
    type Key = StacksBlockHash;

    open spec fn key_of(v: StacksBlock) -> StacksBlockHash {
        v.block_hash
    }

    fn same_key(&self, other: &Self) -> (r: bool) {
        self.block_hash.same(&other.block_hash)
    }

    fn same(&self, other: &Self) -> (r: bool) {
        self.block_hash.same(&other.block_hash) && self.block_height == other.block_height
            && self.parent_hash.same(&other.parent_hash) && self.bitcoin_anchor.same(
            &other.bitcoin_anchor,
        )
    }

    fn copy(&self) -> (r: Self) {
        *self
    }
}

impl PartialEq for StacksBlock {
    fn eq(&self, other: &Self) -> (r: bool) {
        self.same(other)
    }
}

impl PartialEqSpecImpl for StacksBlock {
    open spec fn obeys_eq_spec() -> bool {
        true
    }

    open spec fn eq_spec(&self, other: &Self) -> bool {
        *self == *other
    }
}

/// That a transaction is part of a Bitcoin block.
#[derive(Clone, Copy, Debug, Eq, Hash)]
pub struct BitcoinTxRef {
    /// The transaction's id.
    pub txid: BitcoinTxId,
    /// Hash of the block that holds the transaction.
    pub block_hash: BitcoinBlockHash,
}

impl View for BitcoinTxRef {
    type V = BitcoinTxRef;

    open spec fn view(&self) -> BitcoinTxRef {
        *self
    }
}

impl Row for BitcoinTxRef {
    type Key = BitcoinTxRef;

    open spec fn key_of(v: BitcoinTxRef) -> BitcoinTxRef {
        v
    }

    fn same_key(&self, other: &Self) -> (r: bool) {
        self.txid.same(&other.txid) && self.block_hash.same(&other.block_hash)
    }

    fn same(&self, other: &Self) -> (r: bool) {
        self.txid.same(&other.txid) && self.block_hash.same(&other.block_hash)
    }

    fn copy(&self) -> (r: Self) {
        *self
    }
}

impl PartialEq for BitcoinTxRef {
    fn eq(&self, other: &Self) -> (r: bool) {
        self.same(other)
    }
}

impl PartialEqSpecImpl for BitcoinTxRef {
    open spec fn obeys_eq_spec() -> bool {
        true
    }

    open spec fn eq_spec(&self, other: &Self) -> bool {
        *self == *other
    }
}

/// An output named by its transaction and its place in it.
#[derive(Clone, Copy, Debug, Eq, Hash)]
pub struct OutPoint {
    /// Id of the transaction.
    pub txid: BitcoinTxId,
    /// Index of the output in the transaction.
    pub vout: u32,
}

impl OutPoint {
    /// Whether two outpoints name the same output.
    pub fn same(&self, other: &Self) -> (r: bool)
        ensures
            r == (*self == *other),
    {
        self.txid.same(&other.txid) && self.vout == other.vout
    }
}

impl PartialEq for OutPoint {
    fn eq(&self, other: &Self) -> (r: bool) {
        self.same(other)
    }
}

impl PartialEqSpecImpl for OutPoint {
    open spec fn obeys_eq_spec() -> bool {
        true
    }

    open spec fn eq_spec(&self, other: &Self) -> bool {
        *self == *other
    }
}

/// A request to deposit, validated against its Bitcoin transaction.
#[derive(Debug)]
pub struct DepositRequest {
    /// Id of the transaction that made the deposit.
    pub txid: BitcoinTxId,
    /// Index of the deposit among the transaction's outputs.
    pub output_index: u32,
    /// The script that the signers spend the deposit with.
    pub spend_script: Vec<u8>,
    /// The script that the depositor reclaims the deposit with.
    pub reclaim_script: Vec<u8>,
    /// The Stacks principal that receives the sBTC, in its wire form.
    pub recipient: Vec<u8>,
    /// Amount deposited, in satoshis.
    pub amount: u64,
    /// The most that the signers may take as a fee, in satoshis.
    pub max_fee: u64,
    /// Number of blocks after which the depositor may reclaim the funds.
    pub lock_time: u32,
    /// The signers' key that the deposit is locked to.
    pub signers_public_key: XOnlyPublicKey,
}

/// Mathematical value of a [`DepositRequest`].
pub ghost struct DepositRequestView {
    pub txid: BitcoinTxId,
    pub output_index: u32,
    pub spend_script: Seq<u8>,
    pub reclaim_script: Seq<u8>,
    pub recipient: Seq<u8>,
    pub amount: u64,
    pub max_fee: u64,
    pub lock_time: u32,
    pub signers_public_key: XOnlyPublicKey,
}

impl DepositRequestView {
    /// The output that made the deposit.
    pub open spec fn outpoint(self) -> OutPoint {
        OutPoint { txid: self.txid, vout: self.output_index }
    }
}

impl View for DepositRequest {
    type V = DepositRequestView;

    open spec fn view(&self) -> DepositRequestView {
        DepositRequestView {
            txid: self.txid,
            output_index: self.output_index,
            spend_script: self.spend_script@,
            reclaim_script: self.reclaim_script@,
            recipient: self.recipient@,
            amount: self.amount,
            max_fee: self.max_fee,
            lock_time: self.lock_time,
            signers_public_key: self.signers_public_key,
        }
    }
}

impl Row for DepositRequest {
    type Key = OutPoint;

    open spec fn key_of(v: DepositRequestView) -> OutPoint {
        v.outpoint()
    }

    fn same_key(&self, other: &Self) -> (r: bool) {
        self.txid.same(&other.txid) && self.output_index == other.output_index
    }

    fn same(&self, other: &Self) -> (r: bool) {
        self.txid.same(&other.txid) && self.output_index == other.output_index && bytes_eq(
            &self.spend_script,
            &other.spend_script,
        ) && bytes_eq(&self.reclaim_script, &other.reclaim_script) && bytes_eq(
            &self.recipient,
            &other.recipient,
        ) && self.amount == other.amount && self.max_fee == other.max_fee && self.lock_time
            == other.lock_time && self.signers_public_key.same(&other.signers_public_key)
    }

    fn copy(&self) -> (r: Self) {
        DepositRequest {
            txid: self.txid,
            output_index: self.output_index,
            spend_script: bytes_clone(&self.spend_script),
            reclaim_script: bytes_clone(&self.reclaim_script),
            recipient: bytes_clone(&self.recipient),
            amount: self.amount,
            max_fee: self.max_fee,
            lock_time: self.lock_time,
            signers_public_key: self.signers_public_key,
        }
    }
}

impl PartialEq for DepositRequest {
    fn eq(&self, other: &Self) -> (r: bool) {
        self.same(other)
    }
}

impl PartialEqSpecImpl for DepositRequest {
    open spec fn obeys_eq_spec() -> bool {
        true
    }

    open spec fn eq_spec(&self, other: &Self) -> bool {
        self@ == other@
    }
}

impl DepositRequest {
    /// The output that made the deposit.
    pub fn outpoint(&self) -> (r: OutPoint)
        ensures
            r == self@.outpoint(),
    {
        OutPoint { txid: self.txid, vout: self.output_index }
    }
}

/// A request to withdraw, as the Stacks chain recorded it.
#[derive(Debug)]
pub struct WithdrawalRequest {
    /// The request's number.
    pub request_id: u64,
    /// Id of the Stacks transaction that made the request.
    pub txid: StacksTxId,
    /// Hash of the Stacks block that holds that transaction.
    pub block_hash: StacksBlockHash,
    /// The script that the withdrawn funds are to be locked with.
    pub recipient: ScriptPubKey,
    /// Amount to withdraw, in satoshis.
    pub amount: u64,
    /// The most that the signers may take as a fee, in satoshis.
    pub max_fee: u64,
    /// Height of the Bitcoin chain when the request was made.
    pub bitcoin_block_height: u64,
}

/// Mathematical value of a [`WithdrawalRequest`].
pub ghost struct WithdrawalRequestView {
    pub request_id: u64,
    pub txid: StacksTxId,
    pub block_hash: StacksBlockHash,
    pub recipient: Seq<u8>,
    pub amount: u64,
    pub max_fee: u64,
    pub bitcoin_block_height: u64,
}

impl View for WithdrawalRequest {
    type V = WithdrawalRequestView;

    open spec fn view(&self) -> WithdrawalRequestView {
        WithdrawalRequestView {
            request_id: self.request_id,
            txid: self.txid,
            block_hash: self.block_hash,
            recipient: self.recipient@,
            amount: self.amount,
            max_fee: self.max_fee,
            bitcoin_block_height: self.bitcoin_block_height,
        }
    }
}

impl Row for WithdrawalRequest {
    type Key = u64;

    open spec fn key_of(v: WithdrawalRequestView) -> u64 {
        v.request_id
    }

    fn same_key(&self, other: &Self) -> (r: bool) {
        self.request_id == other.request_id
    }

    fn same(&self, other: &Self) -> (r: bool) {
        self.request_id == other.request_id && self.txid.same(&other.txid)
            && self.block_hash.same(&other.block_hash) && bytes_eq(
            &self.recipient,
            &other.recipient,
        ) && self.amount == other.amount && self.max_fee == other.max_fee
            && self.bitcoin_block_height == other.bitcoin_block_height
    }

    fn copy(&self) -> (r: Self) {
        WithdrawalRequest {
            request_id: self.request_id,
            txid: self.txid,
            block_hash: self.block_hash,
            recipient: bytes_clone(&self.recipient),
            amount: self.amount,
            max_fee: self.max_fee,
            bitcoin_block_height: self.bitcoin_block_height,
        }
    }
}

impl PartialEq for WithdrawalRequest {
    fn eq(&self, other: &Self) -> (r: bool) {
        self.same(other)
    }
}

impl PartialEqSpecImpl for WithdrawalRequest {
    open spec fn obeys_eq_spec() -> bool {
        true
    }

    open spec fn eq_spec(&self, other: &Self) -> bool {
        self@ == other@
    }
}

/// What one signer decided about a deposit request.
#[derive(Clone, Copy, Debug, Eq, Hash)]
pub struct DepositSigner {
    /// Id of the transaction that made the deposit.
    pub txid: BitcoinTxId,
    /// Index of the deposit among the transaction's outputs.
    pub output_index: u32,
    /// The signer's public key.
    pub signer_pub_key: PublicKey,
    /// Whether the signer accepts the deposit.
    pub can_accept: bool,
    /// Whether the signer is part of the set that can sign for the deposit.
    pub can_sign: bool,
}

impl View for DepositSigner {
    type V = DepositSigner;

    open spec fn view(&self) -> DepositSigner {
        *self
    }
}

impl Row for DepositSigner {
    type Key = (OutPoint, PublicKey);

    open spec fn key_of(v: DepositSigner) -> (OutPoint, PublicKey) {
        (OutPoint { txid: v.txid, vout: v.output_index }, v.signer_pub_key)
    }

    fn same_key(&self, other: &Self) -> (r: bool) {
        self.txid.same(&other.txid) && self.output_index == other.output_index
            && self.signer_pub_key.same(&other.signer_pub_key)
    }

    fn same(&self, other: &Self) -> (r: bool) {
        self.txid.same(&other.txid) && self.output_index == other.output_index
            && self.signer_pub_key.same(&other.signer_pub_key) && self.can_accept
            == other.can_accept && self.can_sign == other.can_sign
    }

    fn copy(&self) -> (r: Self) {
        *self
    }
}

impl PartialEq for DepositSigner {
    fn eq(&self, other: &Self) -> (r: bool) {
        self.same(other)
    }
}

impl PartialEqSpecImpl for DepositSigner {
    open spec fn obeys_eq_spec() -> bool {
        true
    }

    open spec fn eq_spec(&self, other: &Self) -> bool {
        *self == *other
    }
}

/// What one signer decided about a withdrawal request.
#[derive(Clone, Copy, Debug, Eq, Hash)]
pub struct WithdrawalSigner {
    /// The request's number.
    pub request_id: u64,
    /// Id of the Stacks transaction that made the request.
    pub txid: StacksTxId,
    /// Hash of the Stacks block that holds that transaction.
    pub block_hash: StacksBlockHash,
    /// The signer's public key.
    pub signer_pub_key: PublicKey,
    /// Whether the signer accepts the withdrawal.
    pub is_accepted: bool,
}

impl View for WithdrawalSigner {
    type V = WithdrawalSigner;

    open spec fn view(&self) -> WithdrawalSigner {
        *self
    }
}

impl Row for WithdrawalSigner {
    type Key = (u64, StacksBlockHash, PublicKey);

    open spec fn key_of(v: WithdrawalSigner) -> (u64, StacksBlockHash, PublicKey) {
        (v.request_id, v.block_hash, v.signer_pub_key)
    }

    fn same_key(&self, other: &Self) -> (r: bool) {
        self.request_id == other.request_id && self.block_hash.same(&other.block_hash)
            && self.signer_pub_key.same(&other.signer_pub_key)
    }

    fn same(&self, other: &Self) -> (r: bool) {
        self.request_id == other.request_id && self.txid.same(&other.txid)
            && self.block_hash.same(&other.block_hash) && self.signer_pub_key.same(
            &other.signer_pub_key,
        ) && self.is_accepted == other.is_accepted
    }

    fn copy(&self) -> (r: Self) {
        *self
    }
}

impl PartialEq for WithdrawalSigner {
    fn eq(&self, other: &Self) -> (r: bool) {
        self.same(other)
    }
}

impl PartialEqSpecImpl for WithdrawalSigner {
    open spec fn obeys_eq_spec() -> bool {
        true
    }

    open spec fn eq_spec(&self, other: &Self) -> bool {
        *self == *other
    }
}

/// What an output of a transaction is to the signers.
#[derive(Clone, Copy, Debug, PartialEq, Eq, Structural, Hash)]
pub enum TxOutputType {
    /// The signers' new custody output of a sweep.
    SignersOutput,
    /// The output of a sweep that carries its data and no funds.
    SignersOpReturn,
    /// Funds sent to the signers outside the deposit protocol.
    Donation,
}

/// A classified output of a confirmed transaction.
#[derive(Debug)]
pub struct TxOutput {
    /// Id of the transaction that holds the output.
    pub txid: BitcoinTxId,
    /// Index of the output in the transaction.
    pub output_index: u32,
    /// Amount that the output locks, in satoshis.
    pub amount: u64,
    /// The script that locks the output.
    pub script_pubkey: ScriptPubKey,
    /// What the output is to the signers.
    pub output_type: TxOutputType,
}

/// Mathematical value of a [`TxOutput`].
pub ghost struct TxOutputView {
    pub txid: BitcoinTxId,
    pub output_index: u32,
    pub amount: u64,
    pub script_pubkey: Seq<u8>,
    pub output_type: TxOutputType,
}

impl View for TxOutput {
    type V = TxOutputView;

    open spec fn view(&self) -> TxOutputView {
        TxOutputView {
            txid: self.txid,
            output_index: self.output_index,
            amount: self.amount,
            script_pubkey: self.script_pubkey@,
            output_type: self.output_type,
        }
    }
}

impl Row for TxOutput {
    type Key = OutPoint;

    open spec fn key_of(v: TxOutputView) -> OutPoint {
        OutPoint { txid: v.txid, vout: v.output_index }
    }

    fn same_key(&self, other: &Self) -> (r: bool) {
        self.txid.same(&other.txid) && self.output_index == other.output_index
    }

    fn same(&self, other: &Self) -> (r: bool) {
        self.txid.same(&other.txid) && self.output_index == other.output_index && self.amount
            == other.amount && bytes_eq(&self.script_pubkey, &other.script_pubkey)
            && self.output_type == other.output_type
    }

    fn copy(&self) -> (r: Self) {
        TxOutput {
            txid: self.txid,
            output_index: self.output_index,
            amount: self.amount,
            script_pubkey: bytes_clone(&self.script_pubkey),
            output_type: self.output_type,
        }
    }
}

impl PartialEq for TxOutput {
    fn eq(&self, other: &Self) -> (r: bool) {
        self.same(other)
    }
}

impl PartialEqSpecImpl for TxOutput {
    open spec fn obeys_eq_spec() -> bool {
        true
    }

    open spec fn eq_spec(&self, other: &Self) -> bool {
        self@ == other@
    }
}

/// What an output that a transaction spends was to the signers.
#[derive(Clone, Copy, Debug, PartialEq, Eq, Structural, Hash)]
pub enum TxPrevoutType {
    /// An output that the signers' custody script locked.
    SignersInput,
    /// The output of a validated deposit request.
    Deposit,
}

/// A classified input of a confirmed transaction: the output that it spends.
#[derive(Debug)]
pub struct TxPrevout {
    /// Id of the transaction that spends the output.
    pub txid: BitcoinTxId,
    /// Id of the transaction that holds the output.
    pub prevout_txid: BitcoinTxId,
    /// Index of the output in the transaction that holds it.
    pub prevout_output_index: u32,
    /// Amount that the output locked, in satoshis.
    pub amount: u64,
    /// The script that locked the output.
    pub script_pubkey: ScriptPubKey,
    /// What the output was to the signers.
    pub prevout_type: TxPrevoutType,
}

/// Mathematical value of a [`TxPrevout`].
pub ghost struct TxPrevoutView {
    pub txid: BitcoinTxId,
    pub prevout_txid: BitcoinTxId,
    pub prevout_output_index: u32,
    pub amount: u64,
    pub script_pubkey: Seq<u8>,
    pub prevout_type: TxPrevoutType,
}

impl View for TxPrevout {
    type V = TxPrevoutView;

    open spec fn view(&self) -> TxPrevoutView {
        TxPrevoutView {
            txid: self.txid,
            prevout_txid: self.prevout_txid,
            prevout_output_index: self.prevout_output_index,
            amount: self.amount,
            script_pubkey: self.script_pubkey@,
            prevout_type: self.prevout_type,
        }
    }
}

impl Row for TxPrevout {
    type Key = (BitcoinTxId, OutPoint);

    open spec fn key_of(v: TxPrevoutView) -> (BitcoinTxId, OutPoint) {
        (v.txid, OutPoint { txid: v.prevout_txid, vout: v.prevout_output_index })
    }

    fn same_key(&self, other: &Self) -> (r: bool) {
        self.txid.same(&other.txid) && self.prevout_txid.same(&other.prevout_txid)
            && self.prevout_output_index == other.prevout_output_index
    }

    fn same(&self, other: &Self) -> (r: bool) {
        self.txid.same(&other.txid) && self.prevout_txid.same(&other.prevout_txid)
            && self.prevout_output_index == other.prevout_output_index && self.amount
            == other.amount && bytes_eq(&self.script_pubkey, &other.script_pubkey)
            && self.prevout_type == other.prevout_type
    }

    fn copy(&self) -> (r: Self) {
        TxPrevout {
            txid: self.txid,
            prevout_txid: self.prevout_txid,
            prevout_output_index: self.prevout_output_index,
            amount: self.amount,
            script_pubkey: bytes_clone(&self.script_pubkey),
            prevout_type: self.prevout_type,
        }
    }
}

impl PartialEq for TxPrevout {
    fn eq(&self, other: &Self) -> (r: bool) {
        self.same(other)
    }
}

impl PartialEqSpecImpl for TxPrevout {
    open spec fn obeys_eq_spec() -> bool {
        true
    }

    open spec fn eq_spec(&self, other: &Self) -> bool {
        self@ == other@
    }
}

/// Where a round of distributed key generation stands.
#[derive(Clone, Copy, Debug, PartialEq, Eq, Structural, Hash)]
pub enum DkgSharesStatus {
    /// The shares have not been verified yet.
    Unverified,
    /// The shares have been verified.
    Verified,
    /// The shares were not verified in time, or failed verification.
    Failed,
}

/// The outcome of one round of distributed key generation.
#[derive(Debug)]
pub struct EncryptedDkgShares {
    /// The aggregate key of the round.
    pub aggregate_key: PublicKey,
    /// The public keys of the signers that took part.
    pub signer_set_public_keys: Vec<PublicKey>,
    /// How many signature shares a signature takes.
    pub signature_share_threshold: u16,
    /// Where the round stands.
    pub dkg_shares_status: DkgSharesStatus,
    /// Height of the Bitcoin chain tip when the round started.
    pub started_at_bitcoin_block_height: u64,
    /// Hash of the Bitcoin chain tip when the round started.
    pub started_at_bitcoin_block_hash: BitcoinBlockHash,
    /// The custody script of the aggregate key.
    pub script_pubkey: ScriptPubKey,
}

/// Mathematical value of an [`EncryptedDkgShares`].
pub ghost struct EncryptedDkgSharesView {
    pub aggregate_key: PublicKey,
    pub signer_set_public_keys: Seq<PublicKey>,
    pub signature_share_threshold: u16,
    pub dkg_shares_status: DkgSharesStatus,
    pub started_at_bitcoin_block_height: u64,
    pub started_at_bitcoin_block_hash: BitcoinBlockHash,
    pub script_pubkey: Seq<u8>,
}

impl View for EncryptedDkgShares {
    type V = EncryptedDkgSharesView;

    open spec fn view(&self) -> EncryptedDkgSharesView {
        EncryptedDkgSharesView {
            aggregate_key: self.aggregate_key,
            signer_set_public_keys: self.signer_set_public_keys@,
            signature_share_threshold: self.signature_share_threshold,
            dkg_shares_status: self.dkg_shares_status,
            started_at_bitcoin_block_height: self.started_at_bitcoin_block_height,
            started_at_bitcoin_block_hash: self.started_at_bitcoin_block_hash,
            script_pubkey: self.script_pubkey@,
        }
    }
}

/// Whether two lists of public keys hold the same keys in the same order.
pub fn keys_eq(a: &Vec<PublicKey>, b: &Vec<PublicKey>) -> (r: bool)
    ensures
        r == (a@ == b@),
{
    if a.len() != b.len() {
        return false;
    }
    let mut i: usize = 0;
    while i < a.len()
        invariant
            a.len() == b.len(),
            i <= a.len(),
            forall|j: int| 0 <= j < i ==> a@[j] == b@[j],
        decreases a.len() - i,
    {
        if !a[i].same(&b[i]) {
            return false;
        }
        i += 1;
    }
    assert(a@ =~= b@);
    true
}

/// A copy of a list of public keys.
pub fn keys_clone(a: &Vec<PublicKey>) -> (r: Vec<PublicKey>)
    ensures
        r@ == a@,
{
    let mut r: Vec<PublicKey> = Vec::new();
    let mut i: usize = 0;
    while i < a.len()
        invariant
            i <= a.len(),
            r@ == a@.take(i as int),
        decreases a.len() - i,
    {
        r.push(a[i]);
        assert(a@.take(i + 1) =~= a@.take(i as int).push(a@[i as int]));
        i += 1;
    }
    assert(a@.take(a.len() as int) =~= a@);
    r
}

impl Row for EncryptedDkgShares {
    type Key = PublicKey;

    open spec fn key_of(v: EncryptedDkgSharesView) -> PublicKey {
        v.aggregate_key
    }

    fn same_key(&self, other: &Self) -> (r: bool) {
        self.aggregate_key.same(&other.aggregate_key)
    }

    fn same(&self, other: &Self) -> (r: bool) {
        self.aggregate_key.same(&other.aggregate_key) && keys_eq(
            &self.signer_set_public_keys,
            &other.signer_set_public_keys,
        ) && self.signature_share_threshold == other.signature_share_threshold
            && self.dkg_shares_status == other.dkg_shares_status
            && self.started_at_bitcoin_block_height == other.started_at_bitcoin_block_height
            && self.started_at_bitcoin_block_hash.same(&other.started_at_bitcoin_block_hash)
            && bytes_eq(&self.script_pubkey, &other.script_pubkey)
    }

    fn copy(&self) -> (r: Self) {
        EncryptedDkgShares {
            aggregate_key: self.aggregate_key,
            signer_set_public_keys: keys_clone(&self.signer_set_public_keys),
            signature_share_threshold: self.signature_share_threshold,
            dkg_shares_status: self.dkg_shares_status,
            started_at_bitcoin_block_height: self.started_at_bitcoin_block_height,
            started_at_bitcoin_block_hash: self.started_at_bitcoin_block_hash,
            script_pubkey: bytes_clone(&self.script_pubkey),
        }
    }
}

impl PartialEq for EncryptedDkgShares {
    fn eq(&self, other: &Self) -> (r: bool) {
        self.same(other)
    }
}

impl PartialEqSpecImpl for EncryptedDkgShares {
    open spec fn obeys_eq_spec() -> bool {
        true
    }

    open spec fn eq_spec(&self, other: &Self) -> bool {
        self@ == other@
    }
}

} // verus!
