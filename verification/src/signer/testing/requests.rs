//! Random deposit requests and withdrawal requests, with the signers'
//! decisions on them.

use crate::signer::model::{
    hash_from, lemma_hash_from, BitcoinBlock, BitcoinTxRef, DepositRequest, DepositRequestView,
    DepositSigner, Hash256, PublicKey, StacksBlock, WithdrawalRequest, WithdrawalRequestView,
    WithdrawalSigner,
};
use crate::signer::random::{
    choose_one, combine_keys, combined_key, fake_bool, fake_bytes, fake_hash, fake_public_key,
    fake_u32, fake_u64,
};
use crate::signer::table::rows_view;
use rand::rngs::StdRng;
use vstd::arithmetic::div_mod::lemma_fundamental_div_mod_converse;
use vstd::prelude::*;

verus! {

/// A deposit request with random values. Its scripts and its recipient are
/// random bytes, fewer than ten each.
fn random_deposit_request(rng: &mut StdRng) -> (r: DepositRequest)
    ensures
        r@.spend_script.len() < 10,
        r@.reclaim_script.len() < 10,
        r@.recipient.len() < 10,
{
    DepositRequest {
        txid: fake_hash(rng),
        output_index: fake_u32(rng),
        spend_script: fake_bytes(rng),
        reclaim_script: fake_bytes(rng),
        recipient: fake_bytes(rng),
        amount: fake_u64(rng),
        max_fee: fake_u64(rng),
        lock_time: fake_u32(rng),
        signers_public_key: fake_hash(rng),
    }
}

/// A withdrawal request with random values. Its recipient is random bytes,
/// fewer than ten.
fn random_withdrawal_request(rng: &mut StdRng) -> (r: WithdrawalRequest)
    ensures
        r@.recipient.len() < 10,
{
    WithdrawalRequest {
        request_id: fake_u64(rng),
        txid: fake_hash(rng),
        block_hash: fake_hash(rng),
        recipient: fake_bytes(rng),
        amount: fake_u64(rng),
        max_fee: fake_u64(rng),
        bitcoin_block_height: fake_u64(rng),
    }
}

/// The public key `key` without its parity: the 32 bytes after the first.
pub open spec fn x_only(key: PublicKey) -> Hash256 {
    hash_from(key.bytes@.subrange(1, 33))
}

/// The public key `key` without its parity.
pub fn to_x_only(key: &PublicKey) -> (r: Hash256)
    ensures
        r == x_only(*key),
{
    let mut bytes = [0u8;32];
    let mut i: usize = 0;
    while i < 32
        invariant
            i <= 32,
            forall|j: int| 0 <= j < i ==> bytes[j] == key.bytes[j + 1],
        decreases 32 - i,
    {
        bytes[i] = key.bytes[i + 1];
        i += 1;
    }
    let r = Hash256 { bytes };
    proof {
        assert(bytes@ =~= key.bytes@.subrange(1, 33));
        lemma_hash_from(r);
    }
    r
}

/// The number of signers that decide on each request when `asked` are
/// asked for and there are `keys` signers: no more than there are.
pub open spec fn signers_per_request(asked: usize, keys: int) -> int {
    if asked <= keys {
        asked as int
    } else {
        keys
    }
}

/// Whether `decision` is a decision of the signer with key `key` on the
/// deposit request `request`, by a signer that can sign for it.
pub open spec fn decides_deposit(
    decision: DepositSigner,
    request: DepositRequestView,
    key: PublicKey,
) -> bool {
    decision.txid == request.txid && decision.output_index == request.output_index
        && decision.signer_pub_key == key && decision.can_sign
}

/// Whether `decision` is a decision of the signer with key `key` on the
/// withdrawal request `request`.
pub open spec fn decides_withdrawal(
    decision: WithdrawalSigner,
    request: WithdrawalRequestView,
    key: PublicKey,
) -> bool {
    decision.request_id == request.request_id && decision.block_hash == request.block_hash
        && decision.txid == request.txid && decision.signer_pub_key == key
}

/// Deposit requests with what belongs to them.
#[derive(Debug)]
pub struct DepositData {
    /// The deposit requests.
    pub deposit_requests: Vec<DepositRequest>,
    /// The signers' decisions on them.
    pub deposit_signers: Vec<DepositSigner>,
    /// For the transaction of each request, the block that it is part of.
    pub bitcoin_transactions: Vec<BitcoinTxRef>,
}

/// Mathematical value of a [`DepositData`].
pub ghost struct DepositDataView {
    pub deposit_requests: Seq<DepositRequestView>,
    pub deposit_signers: Seq<DepositSigner>,
    pub bitcoin_transactions: Seq<BitcoinTxRef>,
}

impl View for DepositData {
    type V = DepositDataView;

    open spec fn view(&self) -> DepositDataView {
        DepositDataView {
            deposit_requests: rows_view(self.deposit_requests@),
            deposit_signers: rows_view(self.deposit_signers@),
            bitcoin_transactions: rows_view(self.bitcoin_transactions@),
        }
    }
}

impl DepositDataView {
    /// Whether this can come out as the deposit data of the Bitcoin block
    /// `block`, made for `num` requests with `per` decisions each, where
    /// the signers' keys are `keys`.
    ///
    /// There are `num` requests and as many transactions, and `per`
    /// decisions for each request, in the order of the requests. The
    /// transaction of each request is part of `block`. Each request is
    /// locked to the sum of the signers' keys, where they have one.
    /// Decision `k` is that of signer `k % per` on request `k / per`.
    pub open spec fn is_made_for(
        self,
        keys: Seq<PublicKey>,
        block: BitcoinBlock,
        num: int,
        per: int,
    ) -> bool {
        &&& self.deposit_requests.len() == num
        &&& self.bitcoin_transactions.len() == num
        &&& self.deposit_signers.len() == num * per
        &&& forall|i: int|
            0 <= i < num ==> #[trigger] self.bitcoin_transactions[i] == (BitcoinTxRef {
                txid: self.deposit_requests[i].txid,
                block_hash: block.block_hash,
            })
        &&& forall|i: int|
            0 <= i < num && combined_key(keys) is Some ==> (
            #[trigger] self.deposit_requests[i]).signers_public_key == x_only(
                combined_key(keys).unwrap(),
            )
        &&& self.decisions_before(keys, per, self.deposit_signers.len() as int)
    }

    /// Whether each decision before `n` is that of signer `k % per` on
    /// request `k / per`, where `k` is its place.
    pub open spec fn decisions_before(self, keys: Seq<PublicKey>, per: int, n: int) -> bool {
        forall|k: int| 0 <= k < n ==> #[trigger] self.decision_fits(keys, per, k)
    }

    /// Whether decision `k` is that of signer `k % per` on request
    /// `k / per`.
    pub open spec fn decision_fits(self, keys: Seq<PublicKey>, per: int, k: int) -> bool {
        &&& 0 <= k / per < self.deposit_requests.len()
        &&& 0 <= k % per < per <= keys.len()
        &&& decides_deposit(
            self.deposit_signers[k],
            self.deposit_requests[k / per],
            keys[k % per],
        )
    }
}

impl DepositData {
    /// No deposit data.
    pub fn new() -> (r: Self)
        ensures
            r.deposit_requests@.len() == 0,
            r.deposit_signers@.len() == 0,
            r.bitcoin_transactions@.len() == 0,
    {
        DepositData {
            deposit_requests: Vec::new(),
            deposit_signers: Vec::new(),
            bitcoin_transactions: Vec::new(),
        }
    }

    /// Deposit data for the Bitcoin block `bitcoin_block`, with random
    /// values: `num_deposit_requests` requests, each locked to the sum of
    /// `signer_keys`, or to a random key where they have no sum, each with
    /// its transaction in the block, and each with a decision of each of the
    /// first `num_signers_per_request` signers, as far as there are so many.
    pub fn generate(
        rng: &mut StdRng,
        signer_keys: &Vec<PublicKey>,
        bitcoin_block: &BitcoinBlock,
        num_deposit_requests: usize,
        num_signers_per_request: usize,
    ) -> (r: Self)
        ensures
            r@.is_made_for(
                signer_keys@,
                *bitcoin_block,
                num_deposit_requests as int,
                signers_per_request(num_signers_per_request, signer_keys@.len() as int),
            ),
    {
        let per = if num_signers_per_request <= signer_keys.len() {
            num_signers_per_request
        } else {
            signer_keys.len()
        };
        let mut deposit_data = DepositData::new();
        let mut i: usize = 0;
        assert(0 * per == 0) by (nonlinear_arith);
        while i < num_deposit_requests
            invariant
                i <= num_deposit_requests,
                per == signers_per_request(num_signers_per_request, signer_keys@.len() as int),
                deposit_data@.is_made_for(signer_keys@, *bitcoin_block, i as int, per as int),
            decreases num_deposit_requests - i,
        {
            let ghost before = deposit_data@;
            let mut deposit_request = random_deposit_request(rng);
            let aggregate_key = match combine_keys(signer_keys) {
                Some(key) => key,
                None => fake_public_key(rng),
            };
            let mut raw_transaction = BitcoinTxRef {
                txid: fake_hash(rng),
                block_hash: fake_hash(rng),
            };
            raw_transaction.block_hash = bitcoin_block.block_hash;
            deposit_request.txid = raw_transaction.txid;
            deposit_request.signers_public_key = to_x_only(&aggregate_key);

            let bitcoin_transaction = BitcoinTxRef {
                txid: raw_transaction.txid,
                block_hash: bitcoin_block.block_hash,
            };
            let txid = deposit_request.txid;
            let output_index = deposit_request.output_index;
            let ghost request = deposit_request@;
            deposit_data.bitcoin_transactions.push(bitcoin_transaction);
            deposit_data.deposit_requests.push(deposit_request);
            proof {
                assert(deposit_data@.deposit_requests =~= before.deposit_requests.push(request));
                assert(deposit_data@.bitcoin_transactions =~= before.bitcoin_transactions.push(
                    bitcoin_transaction,
                ));
                assert(deposit_data@.deposit_signers =~= before.deposit_signers);
                let made = deposit_data@;
                assert forall|k: int|
                    0 <= k < made.deposit_signers.len() implies #[trigger] made.decision_fits(
                    signer_keys@,
                    per as int,
                    k,
                ) by {
                    assert(before.decision_fits(signer_keys@, per as int, k));
                    assert(deposit_data@.deposit_requests[k / (per as int)]
                        == before.deposit_requests[k / (per as int)]);
                }
            }
            let mut j: usize = 0;
            while j < per
                invariant
                    j <= per <= signer_keys.len(),
                    i < num_deposit_requests,
                    deposit_data@.deposit_requests == before.deposit_requests.push(request),
                    deposit_data@.bitcoin_transactions == before.bitcoin_transactions.push(
                        bitcoin_transaction,
                    ),
                    before.deposit_requests.len() == i,
                    request.txid == txid,
                    request.output_index == output_index,
                    deposit_data@.deposit_signers.len() == i * per + j,
                    deposit_data@.decisions_before(
                        signer_keys@,
                        per as int,
                        deposit_data@.deposit_signers.len() as int,
                    ),
                decreases per - j,
            {
                let ghost signers_before = deposit_data@.deposit_signers;
                let decision = DepositSigner {
                    txid,
                    output_index,
                    signer_pub_key: signer_keys[j],
                    can_accept: fake_bool(rng),
                    can_sign: true,
                };
                deposit_data.deposit_signers.push(decision);
                proof {
                    assert(deposit_data@.deposit_signers =~= signers_before.push(decision));
                    let k = i * per + j;
                    lemma_fundamental_div_mod_converse(k, per as int, i as int, j as int);
                    let made = deposit_data@;
                    let data_before = DepositDataView { deposit_signers: signers_before, ..made };
                    assert forall|k: int|
                        0 <= k < made.deposit_signers.len() implies #[trigger] made.decision_fits(
                        signer_keys@,
                        per as int,
                        k,
                    ) by {
                        if k < signers_before.len() {
                            assert(data_before.decision_fits(signer_keys@, per as int, k));
                            assert(deposit_data@.deposit_signers[k] == signers_before[k]);
                        }
                    }
                }
                j += 1;
            }
            proof {
                assert((i + 1) * per == i * per + per) by (nonlinear_arith);
                let made = deposit_data@;
                assert forall|a: int| 0 <= a < i + 1 implies #[trigger] made.bitcoin_transactions[a]
                    == (BitcoinTxRef {
                    txid: made.deposit_requests[a].txid,
                    block_hash: bitcoin_block.block_hash,
                }) by {
                    if a < i {
                        assert(made.bitcoin_transactions[a] == before.bitcoin_transactions[a]);
                        assert(made.deposit_requests[a] == before.deposit_requests[a]);
                    }
                }
                assert forall|a: int|
                    0 <= a < i + 1 && combined_key(signer_keys@) is Some implies (
                #[trigger] deposit_data@.deposit_requests[a]).signers_public_key == x_only(
                    combined_key(signer_keys@).unwrap(),
                ) by {
                    if a < i {
                        assert(deposit_data@.deposit_requests[a] == before.deposit_requests[a]);
                    }
                }
            }
            i += 1;
        }
        deposit_data
    }
}

/// The greatest number of a request among `requests`, or zero if there is
/// none.
pub open spec fn max_request_id(requests: Seq<WithdrawalRequestView>) -> u64
    decreases requests.len(),
{
    if requests.len() == 0 {
        0
    } else {
        let before = max_request_id(requests.drop_last());
        if requests.last().request_id > before {
            requests.last().request_id
        } else {
            before
        }
    }
}

/// No request among `requests` has a number above the greatest.
pub proof fn law_greatest_request_id_is_greatest(requests: Seq<WithdrawalRequestView>, i: int)
    requires
        0 <= i < requests.len(),
    ensures
        requests[i].request_id <= max_request_id(requests),
    decreases requests.len(),
{
    if i < requests.len() - 1 {
        law_greatest_request_id_is_greatest(requests.drop_last(), i);
    }
}

/// Requests numbered on from the greatest number so far raise it by their
/// count.
pub proof fn lemma_max_request_id_grows(
    held: Seq<WithdrawalRequestView>,
    more: Seq<WithdrawalRequestView>,
)
    requires
        forall|k: int|
            0 <= k < more.len() ==> (#[trigger] more[k]).request_id == max_request_id(held) + 1 + k,
    ensures
        max_request_id(held + more) == max_request_id(held) + more.len(),
    decreases more.len(),
{
    if more.len() == 0 {
        assert(held + more =~= held);
    } else {
        let front = more.drop_last();
        assert forall|k: int| 0 <= k < front.len() implies (#[trigger] front[k]).request_id
            == max_request_id(held) + 1 + k by {
            assert(front[k] == more[k]);
        }
        lemma_max_request_id_grows(held, front);
        assert((held + more).drop_last() =~= held + front);
        assert((held + more).last() == more[more.len() - 1]);
    }
}

/// Withdrawal requests with what belongs to them.
#[derive(Debug)]
pub struct WithdrawData {
    /// The withdrawal requests.
    pub withdraw_requests: Vec<WithdrawalRequest>,
    /// The signers' decisions on them.
    pub withdraw_signers: Vec<WithdrawalSigner>,
}

/// Mathematical value of a [`WithdrawData`].
pub ghost struct WithdrawDataView {
    pub withdraw_requests: Seq<WithdrawalRequestView>,
    pub withdraw_signers: Seq<WithdrawalSigner>,
}

impl View for WithdrawData {
    type V = WithdrawDataView;

    open spec fn view(&self) -> WithdrawDataView {
        WithdrawDataView {
            withdraw_requests: rows_view(self.withdraw_requests@),
            withdraw_signers: rows_view(self.withdraw_signers@),
        }
    }
}

impl WithdrawDataView {
    /// Whether this can come out as the withdrawal data of the Bitcoin
    /// block `block`, made for `num` requests with `per` decisions each,
    /// where the signers' keys are `keys`, the Stacks blocks to choose from
    /// are `stacks_blocks`, and the greatest number of a request so far is
    /// `last_id`.
    ///
    /// There are `num` requests, numbered from `last_id + 1` on, each made
    /// at the height of `block` and in one of the Stacks blocks, and `per`
    /// decisions for each request, in the order of the requests. Decision
    /// `k` is that of signer `k % per` on request `k / per`.
    pub open spec fn is_made_for(
        self,
        keys: Seq<PublicKey>,
        block: BitcoinBlock,
        stacks_blocks: Seq<StacksBlock>,
        last_id: u64,
        num: int,
        per: int,
    ) -> bool {
        &&& self.withdraw_requests.len() == num
        &&& self.withdraw_signers.len() == num * per
        &&& forall|i: int|
            0 <= i < num ==> (#[trigger] self.withdraw_requests[i]).request_id == last_id + 1 + i
                && self.withdraw_requests[i].bitcoin_block_height == block.block_height
                && exists|s: int|
                0 <= s < stacks_blocks.len() && self.withdraw_requests[i].block_hash == (
                #[trigger] stacks_blocks[s]).block_hash
        &&& self.decisions_before(keys, per, self.withdraw_signers.len() as int)
    }

    /// Whether each decision before `n` is that of signer `k % per` on
    /// request `k / per`, where `k` is its place.
    pub open spec fn decisions_before(self, keys: Seq<PublicKey>, per: int, n: int) -> bool {
        forall|k: int| 0 <= k < n ==> #[trigger] self.decision_fits(keys, per, k)
    }

    /// Whether decision `k` is that of signer `k % per` on request
    /// `k / per`.
    pub open spec fn decision_fits(self, keys: Seq<PublicKey>, per: int, k: int) -> bool {
        &&& 0 <= k / per < self.withdraw_requests.len()
        &&& 0 <= k % per < per <= keys.len()
        &&& decides_withdrawal(
            self.withdraw_signers[k],
            self.withdraw_requests[k / per],
            keys[k % per],
        )
    }
}

/// The greatest number of a request among `requests`, or zero.
fn greatest_request_id(requests: &Vec<WithdrawalRequest>) -> (r: u64)
    ensures
        r == max_request_id(rows_view(requests@)),
{
    let mut greatest: u64 = 0;
    let mut i: usize = 0;
    assert(rows_view(requests@).take(0) =~= Seq::empty());
    while i < requests.len()
        invariant
            i <= requests.len(),
            greatest == max_request_id(rows_view(requests@).take(i as int)),
        decreases requests.len() - i,
    {
        proof {
            assert(rows_view(requests@).take(i + 1).drop_last() =~= rows_view(requests@).take(
                i as int,
            ));
            assert(rows_view(requests@).take(i + 1).last() == requests@[i as int]@);
        }
        if requests[i].request_id > greatest {
            greatest = requests[i].request_id;
        }
        i += 1;
    }
    assert(rows_view(requests@).take(requests.len() as int) =~= rows_view(requests@));
    greatest
}

impl WithdrawData {
    /// No withdrawal data.
    pub fn new() -> (r: Self)
        ensures
            r.withdraw_requests@.len() == 0,
            r.withdraw_signers@.len() == 0,
    {
        WithdrawData { withdraw_requests: Vec::new(), withdraw_signers: Vec::new() }
    }

    /// Withdrawal data for the Bitcoin block `bitcoin_block`, with random
    /// values: `num_withdraw_requests` requests, numbered on from the
    /// greatest number among `withdraw_requests`, each in a Stacks block
    /// drawn from `stacks_blocks`, and each with a decision of each of the
    /// first `num_signers_per_request` signers, as far as there are so
    /// many.
    pub fn generate(
        rng: &mut StdRng,
        signer_keys: &Vec<PublicKey>,
        bitcoin_block: &BitcoinBlock,
        stacks_blocks: &Vec<StacksBlock>,
        withdraw_requests: &Vec<WithdrawalRequest>,
        num_withdraw_requests: usize,
        num_signers_per_request: usize,
    ) -> (r: Self)
        requires
            num_withdraw_requests > 0 ==> stacks_blocks.len() > 0,
            max_request_id(rows_view(withdraw_requests@)) + num_withdraw_requests < u64::MAX,
        ensures
            r@.is_made_for(
                signer_keys@,
                *bitcoin_block,
                stacks_blocks@,
                max_request_id(rows_view(withdraw_requests@)),
                num_withdraw_requests as int,
                signers_per_request(num_signers_per_request, signer_keys@.len() as int),
            ),
    {
        let per = if num_signers_per_request <= signer_keys.len() {
            num_signers_per_request
        } else {
            signer_keys.len()
        };
        let last_id = greatest_request_id(withdraw_requests);
        let mut next_withdraw_request_id: u64 = last_id + 1;
        let mut data = WithdrawData::new();
        let mut i: usize = 0;
        assert(0 * per == 0) by (nonlinear_arith);
        while i < num_withdraw_requests
            invariant
                i <= num_withdraw_requests,
                num_withdraw_requests > 0 ==> stacks_blocks.len() > 0,
                last_id + num_withdraw_requests < u64::MAX,
                next_withdraw_request_id == last_id + 1 + i,
                per == signers_per_request(num_signers_per_request, signer_keys@.len() as int),
                data@.is_made_for(
                    signer_keys@,
                    *bitcoin_block,
                    stacks_blocks@,
                    last_id,
                    i as int,
                    per as int,
                ),
            decreases num_withdraw_requests - i,
        {
            let ghost before = data@;
            let stacks_block_hash = match choose_one(stacks_blocks, rng) {
                Some(block) => block.block_hash,
                None => unreached(),
            };
            let mut withdraw_request = random_withdrawal_request(rng);
            withdraw_request.block_hash = stacks_block_hash;
            withdraw_request.request_id = next_withdraw_request_id;
            withdraw_request.recipient = fake_bytes(rng);
            withdraw_request.bitcoin_block_height = bitcoin_block.block_height;

            let request_id = withdraw_request.request_id;
            let block_hash = withdraw_request.block_hash;
            let txid = withdraw_request.txid;
            let ghost request = withdraw_request@;
            data.withdraw_requests.push(withdraw_request);
            proof {
                assert(data@.withdraw_requests =~= before.withdraw_requests.push(request));
                assert(data@.withdraw_signers =~= before.withdraw_signers);
                assert forall|k: int|
                    0 <= k < data@.withdraw_signers.len() implies #[trigger] data@.decision_fits(
                    signer_keys@,
                    per as int,
                    k,
                ) by {
                    assert(before.decision_fits(signer_keys@, per as int, k));
                    let request = k / (per as int);
                    assert(data@.withdraw_requests[request] == before.withdraw_requests[request]);
                }
            }
            let mut j: usize = 0;
            while j < per
                invariant
                    j <= per <= signer_keys.len(),
                    i < num_withdraw_requests,
                    data@.withdraw_requests == before.withdraw_requests.push(request),
                    before.withdraw_requests.len() == i,
                    request.request_id == request_id,
                    request.block_hash == block_hash,
                    request.txid == txid,
                    data@.withdraw_signers.len() == i * per + j,
                    data@.decisions_before(
                        signer_keys@,
                        per as int,
                        data@.withdraw_signers.len() as int,
                    ),
                decreases per - j,
            {
                let ghost signers_before = data@.withdraw_signers;
                let decision = WithdrawalSigner {
                    request_id,
                    block_hash,
                    txid,
                    signer_pub_key: signer_keys[j],
                    is_accepted: fake_bool(rng),
                };
                data.withdraw_signers.push(decision);
                proof {
                    assert(data@.withdraw_signers =~= signers_before.push(decision));
                    let k = i * per + j;
                    lemma_fundamental_div_mod_converse(k, per as int, i as int, j as int);
                    let made = data@;
                    let data_before = WithdrawDataView { withdraw_signers: signers_before, ..made };
                    assert forall|k: int|
                        0 <= k < made.withdraw_signers.len() implies #[trigger] made.decision_fits(
                        signer_keys@,
                        per as int,
                        k,
                    ) by {
                        if k < signers_before.len() {
                            assert(data_before.decision_fits(signer_keys@, per as int, k));
                            assert(data@.withdraw_signers[k] == signers_before[k]);
                        }
                    }
                }
                j += 1;
            }
            proof {
                assert((i + 1) * per == i * per + per) by (nonlinear_arith);
                assert forall|a: int| 0 <= a < i + 1 implies (
                #[trigger] data@.withdraw_requests[a]).request_id == last_id + 1 + a
                    && data@.withdraw_requests[a].bitcoin_block_height == bitcoin_block.block_height
                    && exists|s: int|
                    0 <= s < stacks_blocks@.len() && data@.withdraw_requests[a].block_hash == (
                    #[trigger] stacks_blocks@[s]).block_hash by {
                    if a < i {
                        assert(data@.withdraw_requests[a] == before.withdraw_requests[a]);
                    }
                }
            }
            next_withdraw_request_id = next_withdraw_request_id + 1;
            i += 1;
        }
        data
    }
}

} // verus!
