//! Finding the headers that are new to the signers: from the block that a
//! node reports as its best one, back along the parent links, down to a
//! block that the store knows or to the configured start height.

use super::error::Error;
use super::model::{BitcoinBlock, BitcoinBlockHash, BitcoinBlockHeader, Row};
use super::store::Store;
use super::table::has_key;
use vstd::prelude::*;

verus! {

/// What is known of a block hash when the walk comes to it.
#[derive(Clone, Copy, Debug)]
pub enum ChainAnswer {
    /// The store knows the block.
    Known,
    /// The store does not know the block; the chain-data source gave this
    /// header for it.
    Header(BitcoinBlockHeader),
    /// The store does not know the block, and the chain-data source has no
    /// header for it.
    Missing,
}

/// The chain as a walk sees it: the headers that the chain-data source
/// has, by block hash, the hashes of the blocks that the store knows, and
/// the height at which the signers start to observe.
pub ghost struct ChainView {
    pub headers: Map<BitcoinBlockHash, BitcoinBlockHeader>,
    pub known: Set<BitcoinBlockHash>,
    pub start_height: u64,
}

/// How much of a walk can be left below a block of height `below`, or
/// below no block yet.
pub open spec fn room(below: Option<u64>) -> nat {
    match below {
        Some(height) => height as nat,
        None => (u64::MAX + 1) as nat,
    }
}

/// Whether `header` can stand for the block `hash` under a block of
/// height `below`: it is the header of that block, and one lower.
pub open spec fn fits(
    header: BitcoinBlockHeader,
    hash: BitcoinBlockHash,
    below: Option<u64>,
) -> bool {
    header.hash == hash && match below {
        Some(height) => header.height + 1 == height,
        None => true,
    }
}

/// Whether each header of `headers` is the parent of the next one and one
/// lower than it.
pub open spec fn linked(headers: Seq<BitcoinBlockHeader>) -> bool {
    forall|i: int|
        0 <= i < headers.len() - 1 ==> (#[trigger] headers[i]).hash == headers[i + 1].parent_hash
            && headers[i].height + 1 == headers[i + 1].height
}

/// Whether `headers` are in the order of their heights, lowest first, no
/// two of the same height.
pub open spec fn ascending(headers: Seq<BitcoinBlockHeader>) -> bool {
    forall|i: int, j: int|
        0 <= i < j < headers.len() ==> (#[trigger] headers[i]).height < (
        #[trigger] headers[j]).height
}

impl ChainView {
    /// What is known of the block `hash`.
    pub open spec fn answer(self, hash: BitcoinBlockHash) -> ChainAnswer {
        if self.known.contains(hash) {
            ChainAnswer::Known
        } else if self.headers.dom().contains(hash) {
            ChainAnswer::Header(self.headers[hash])
        } else {
            ChainAnswer::Missing
        }
    }

    /// The headers to process from the block `hash` down, lowest first,
    /// where the block above `hash`, if there is one, has height `below`.
    ///
    /// The walk ends without the block when the store knows it, and with
    /// it when it is at the start height. It fails when the source has no
    /// header for a block it comes to, or one that does not fit.
    pub open spec fn walk(self, hash: BitcoinBlockHash, below: Option<u64>) -> Result<
        Seq<BitcoinBlockHeader>,
        Error,
    >
        decreases room(below),
    {
        match self.answer(hash) {
            ChainAnswer::Known => Ok(Seq::empty()),
            ChainAnswer::Missing => Err(Error::ChainDataUnavailable(hash)),
            ChainAnswer::Header(header) => if !fits(header, hash, below) {
                Err(Error::InconsistentHeader(hash))
            } else if header.height == self.start_height {
                Ok(seq![header])
            } else {
                match self.walk(header.parent_hash, Some(header.height)) {
                    Ok(lower) => Ok(lower.push(header)),
                    Err(e) => Err(e),
                }
            },
        }
    }

    /// The headers to process when a node reports `tip` as its best block.
    pub open spec fn headers_to_process(self, tip: BitcoinBlockHash) -> Result<
        Seq<BitcoinBlockHeader>,
        Error,
    > {
        self.walk(tip, None)
    }
}

/// What a walk that has taken `taken`, highest first, comes to when the
/// rest of it comes to `rest`.
pub open spec fn completed(
    rest: Result<Seq<BitcoinBlockHeader>, Error>,
    taken: Seq<BitcoinBlockHeader>,
) -> Result<Seq<BitcoinBlockHeader>, Error> {
    match rest {
        Ok(lower) => Ok(lower + taken.reverse()),
        Err(e) => Err(e),
    }
}

/// A walk in progress.
#[derive(Debug)]
pub struct HeaderWalk {
    start_height: u64,
    next: BitcoinBlockHash,
    below: Option<u64>,
    taken: Vec<BitcoinBlockHeader>,
}

/// Mathematical value of a [`HeaderWalk`].
pub ghost struct HeaderWalkView {
    /// The height at which the walk ends in any case.
    pub start_height: u64,
    /// The hash of the block that the walk has come to.
    pub next: BitcoinBlockHash,
    /// The height of the header taken last.
    pub below: Option<u64>,
    /// The headers taken so far, highest first.
    pub taken: Seq<BitcoinBlockHeader>,
}

/// Where a walk stands after a step.
#[derive(Debug)]
pub enum WalkStep {
    /// The walk goes on: the next question is what is known of
    /// [`HeaderWalk::next_hash`].
    Continue(HeaderWalk),
    /// The walk is over: the headers to process, lowest first.
    Done(Vec<BitcoinBlockHeader>),
}

impl HeaderWalkView {
    /// Whether the headers taken hang together: each is the parent of the
    /// one taken before it and one lower, and the walk has come to the
    /// parent of the last.
    pub open spec fn wf(self) -> bool {
        &&& linked(self.taken.reverse())
        &&& self.taken.len() == 0 ==> self.below is None
        &&& self.taken.len() > 0 ==> self.below == Some(self.taken.last().height) && self.next
            == self.taken.last().parent_hash
    }

    /// The walk with `header` taken.
    pub open spec fn taking(self, header: BitcoinBlockHeader) -> HeaderWalkView {
        HeaderWalkView {
            start_height: self.start_height,
            next: header.parent_hash,
            below: Some(header.height),
            taken: self.taken.push(header),
        }
    }

    /// What `answer` makes of the walk: the headers to process if it ends
    /// the walk, else the walk one header on; `None` stands for going on.
    pub open spec fn step(self, answer: ChainAnswer) -> Result<
        Option<Seq<BitcoinBlockHeader>>,
        Error,
    > {
        match answer {
            ChainAnswer::Known => Ok(Some(self.taken.reverse())),
            ChainAnswer::Missing => Err(Error::ChainDataUnavailable(self.next)),
            ChainAnswer::Header(header) => if !fits(header, self.next, self.below) {
                Err(Error::InconsistentHeader(self.next))
            } else if header.height == self.start_height {
                Ok(Some(self.taking(header).taken.reverse()))
            } else {
                Ok(None)
            },
        }
    }
}

impl View for HeaderWalk {
    type V = HeaderWalkView;

    closed spec fn view(&self) -> HeaderWalkView {
        HeaderWalkView {
            start_height: self.start_height,
            next: self.next,
            below: self.below,
            taken: self.taken@,
        }
    }
}

/// The headers of `headers` in the opposite order.
fn reversed(headers: Vec<BitcoinBlockHeader>) -> (r: Vec<BitcoinBlockHeader>)
    ensures
        r@ == headers@.reverse(),
{
    let n = headers.len();
    let mut r: Vec<BitcoinBlockHeader> = Vec::new();
    let mut i: usize = 0;
    while i < n
        invariant
            i <= n,
            n == headers.len(),
            r.len() == i,
            forall|j: int| 0 <= j < i ==> r@[j] == headers@[n - 1 - j],
        decreases n - i,
    {
        r.push(headers[n - 1 - i]);
        i += 1;
    }
    assert(r@ =~= headers@.reverse());
    r
}

impl HeaderWalk {
    /// A walk from the block `tip`, which a node reports as its best one,
    /// down to `start_height` at most.
    pub fn begin(tip: BitcoinBlockHash, start_height: u64) -> (r: Self)
        ensures
            r@ == (HeaderWalkView { start_height, next: tip, below: None, taken: Seq::empty() }),
            r@.wf(),
    {
        let r = HeaderWalk { start_height, next: tip, below: None, taken: Vec::new() };
        assert(r@.taken.reverse() =~= Seq::empty());
        r
    }

    /// The hash of the block that the walk has come to.
    pub fn next_hash(&self) -> (r: BitcoinBlockHash)
        ensures
            r == self@.next,
    {
        self.next
    }

    /// Takes the walk one step on, given what is known of the block that it
    /// has come to.
    ///
    /// The walk ends without the block if the store knows it, and with it
    /// if it is at the start height. It fails if the source has no header,
    /// or gave one that is not of the block asked for or not one lower than
    /// the header taken before. What a walk gives at its end is linked by
    /// hash and height, lowest first.
    pub fn advance(self, answer: ChainAnswer) -> (r: Result<WalkStep, Error>)
        ensures
            match self@.step(answer) {
                Err(e) => r == Err::<WalkStep, Error>(e),
                Ok(Some(headers)) => r matches Ok(WalkStep::Done(v)) && v@ == headers,
                Ok(None) => r matches Ok(WalkStep::Continue(w))
                    && answer matches ChainAnswer::Header(header) && w@ == self@.taking(header),
            },
            self@.wf() ==> match r {
                Ok(WalkStep::Continue(w)) => w@.wf(),
                Ok(WalkStep::Done(v)) => linked(v@),
                Err(_) => true,
            },
    {
        let mut walk = self;
        match answer {
            ChainAnswer::Known => Ok(WalkStep::Done(reversed(walk.taken))),
            ChainAnswer::Missing => Err(Error::ChainDataUnavailable(walk.next)),
            ChainAnswer::Header(header) => {
                let fits_below = match walk.below {
                    Some(height) => header.height < height && header.height + 1 == height,
                    None => true,
                };
                if !(header.hash.same(&walk.next) && fits_below) {
                    return Err(Error::InconsistentHeader(walk.next));
                }
                let ghost before = walk@;
                walk.taken.push(header);
                proof {
                    lemma_taking_linked(before, header);
                }
                if header.height == walk.start_height {
                    Ok(WalkStep::Done(reversed(walk.taken)))
                } else {
                    walk.next = header.parent_hash;
                    walk.below = Some(header.height);
                    Ok(WalkStep::Continue(walk))
                }
            },
        }
    }
}

/// A header that fits keeps the headers taken linked.
proof fn lemma_taking_linked(walk: HeaderWalkView, header: BitcoinBlockHeader)
    requires
        fits(header, walk.next, walk.below),
    ensures
        walk.wf() ==> walk.taking(header).wf(),
{
    if walk.wf() {
        let old_rev = walk.taken.reverse();
        let new_rev = walk.taking(header).taken.reverse();
        assert(new_rev =~= seq![header] + old_rev);
        assert forall|i: int| 0 <= i < new_rev.len() - 1 implies (#[trigger] new_rev[i]).hash
            == new_rev[i + 1].parent_hash && new_rev[i].height + 1 == new_rev[i + 1].height by {
            if i == 0 {
                assert(new_rev[1] == old_rev[0]);
                assert(old_rev[0] == walk.taken.last());
            } else {
                assert(new_rev[i] == old_rev[i - 1]);
                assert(new_rev[i + 1] == old_rev[i]);
            }
        }
    }
}

/// The header that was added last to `headers` for the block `hash`.
pub open spec fn last_with(headers: Seq<BitcoinBlockHeader>, hash: BitcoinBlockHash) -> Option<
    BitcoinBlockHeader,
>
    decreases headers.len(),
{
    if headers.len() == 0 {
        None
    } else if headers.last().hash == hash {
        Some(headers.last())
    } else {
        last_with(headers.drop_last(), hash)
    }
}

/// A chain-data source held in memory: the headers that a node would
/// report, by block hash.
#[derive(Debug)]
pub struct HeaderSource {
    headers: Vec<BitcoinBlockHeader>,
}

impl View for HeaderSource {
    type V = Map<BitcoinBlockHash, BitcoinBlockHeader>;

    closed spec fn view(&self) -> Map<BitcoinBlockHash, BitcoinBlockHeader> {
        Map::new(
            |hash: BitcoinBlockHash| last_with(self.headers@, hash) is Some,
            |hash: BitcoinBlockHash| last_with(self.headers@, hash).unwrap(),
        )
    }
}

impl HeaderSource {
    /// A source without headers.
    pub fn new() -> (r: Self)
        ensures
            r@ == Map::<BitcoinBlockHash, BitcoinBlockHeader>::empty(),
    {
        let r = HeaderSource { headers: Vec::new() };
        assert(r@ =~= Map::empty());
        r
    }

    /// Makes `header` the header that the source reports for its block.
    pub fn add(&mut self, header: BitcoinBlockHeader)
        ensures
            final(self)@ == old(self)@.insert(header.hash, header),
    {
        let ghost before = self.headers@;
        self.headers.push(header);
        assert(self.headers@.drop_last() =~= before);
        assert(self@ =~= old(self)@.insert(header.hash, header));
    }

    /// The header that the source reports for the block `hash`, if it has
    /// one.
    pub fn get_header(&self, hash: &BitcoinBlockHash) -> (r: Option<BitcoinBlockHeader>)
        ensures
            r == (if self@.dom().contains(*hash) {
                Some(self@[*hash])
            } else {
                None
            }),
    {
        let mut i: usize = self.headers.len();
        assert(self.headers@.take(i as int) =~= self.headers@);
        while i > 0
            invariant
                i <= self.headers.len(),
                last_with(self.headers@, *hash) == last_with(self.headers@.take(i as int), *hash),
            decreases i,
        {
            i -= 1;
            assert(self.headers@.take(i + 1).drop_last() =~= self.headers@.take(i as int));
            if self.headers[i].hash.same(hash) {
                return Some(self.headers[i]);
            }
        }
        None
    }
}

/// The chain that a walk sees when it asks `store` what is known and
/// `source` for headers.
pub open spec fn chain_view(
    source: Map<BitcoinBlockHash, BitcoinBlockHeader>,
    known: Seq<BitcoinBlock>,
    start_height: u64,
) -> ChainView {
    ChainView {
        headers: source,
        known: Set::new(
            |hash: BitcoinBlockHash|
                exists|i: int| 0 <= i < known.len() && (#[trigger] known[i]).block_hash == hash,
        ),
        start_height,
    }
}

/// The headers that are new to `store` when a node reports `tip` as its best
/// block, lowest first: those from `tip` back along the parent links, down
/// to a block that the store knows, which is left out, or to a block at
/// `start_height`, which is taken. Nothing if the store knows `tip`.
///
/// Fails with [`Error::ChainDataUnavailable`] at the first block on the way
/// for which `source` has no header, and with [`Error::InconsistentHeader`]
/// at the first whose header is not one lower than the header above it.
pub fn headers_to_process(
    source: &HeaderSource,
    store: &Store,
    start_height: u64,
    tip: BitcoinBlockHash,
) -> (r: Result<Vec<BitcoinBlockHeader>, Error>)
    ensures
        match chain_view(source@, store@.bitcoin_blocks, start_height).headers_to_process(tip) {
            Ok(headers) => r matches Ok(v) && v@ == headers,
            Err(e) => r == Err::<Vec<BitcoinBlockHeader>, Error>(e),
        },
{
    let ghost chain = chain_view(source@, store@.bitcoin_blocks, start_height);
    let mut walk = HeaderWalk::begin(tip, start_height);
    proof {
        match chain.walk(tip, None) {
            Ok(lower) => {
                assert(lower + Seq::<BitcoinBlockHeader>::empty().reverse() =~= lower);
            },
            Err(_) => {},
        }
    }
    loop
        invariant
            chain == chain_view(source@, store@.bitcoin_blocks, start_height),
            walk@.start_height == start_height,
            chain.walk(tip, None) == completed(chain.walk(walk@.next, walk@.below), walk@.taken),
        decreases room(walk@.below),
    {
        let hash = walk.next_hash();
        let answer = if store.is_known_bitcoin_block_hash(&hash) {
            ChainAnswer::Known
        } else {
            match source.get_header(&hash) {
                Some(header) => ChainAnswer::Header(header),
                None => ChainAnswer::Missing,
            }
        };
        proof {
            lemma_known(store@.bitcoin_blocks, hash);
            assert(answer == chain.answer(hash));
            lemma_step(chain, walk@);
        }
        match walk.advance(answer) {
            Err(e) => {
                return Err(e);
            },
            Ok(WalkStep::Done(headers)) => {
                return Ok(headers);
            },
            Ok(WalkStep::Continue(next)) => {
                walk = next;
            },
        }
    }
}

/// A store knows a block exactly if one of its blocks has that hash.
proof fn lemma_known(known: Seq<BitcoinBlock>, hash: BitcoinBlockHash)
    ensures
        chain_view(Map::empty(), known, 0).known.contains(hash) <==> has_key::<BitcoinBlock>(
            known,
            hash,
        ),
{
    if has_key::<BitcoinBlock>(known, hash) {
        let i = choose|i: int|
            0 <= i < known.len() && #[trigger] BitcoinBlock::key_of(known[i]) == hash;
        assert(known[i].block_hash == hash);
    }
    if chain_view(Map::empty(), known, 0).known.contains(hash) {
        let i = choose|i: int| 0 <= i < known.len() && (#[trigger] known[i]).block_hash == hash;
        assert(BitcoinBlock::key_of(known[i]) == hash);
    }
}

/// One step of a walk in progress is one step of the walk as a whole.
proof fn lemma_step(chain: ChainView, walk: HeaderWalkView)
    requires
        walk.start_height == chain.start_height,
    ensures
        match walk.step(chain.answer(walk.next)) {
            Err(e) => completed(chain.walk(walk.next, walk.below), walk.taken) == Err::<
                Seq<BitcoinBlockHeader>,
                Error,
            >(e),
            Ok(Some(headers)) => completed(chain.walk(walk.next, walk.below), walk.taken) == Ok::<
                Seq<BitcoinBlockHeader>,
                Error,
            >(headers),
            Ok(None) => chain.answer(walk.next) matches ChainAnswer::Header(header) && completed(
                chain.walk(walk.next, walk.below),
                walk.taken,
            ) == completed(
                chain.walk(header.parent_hash, Some(header.height)),
                walk.taking(header).taken,
            ) && room(Some(header.height)) < room(walk.below),
        },
{
    match chain.answer(walk.next) {
        ChainAnswer::Known => {
            assert(Seq::<BitcoinBlockHeader>::empty() + walk.taken.reverse()
                =~= walk.taken.reverse());
        },
        ChainAnswer::Missing => {},
        ChainAnswer::Header(header) => {
            if fits(header, walk.next, walk.below) {
                let taken = walk.taking(header).taken;
                assert(taken.reverse() =~= seq![header] + walk.taken.reverse());
                if header.height != chain.start_height {
                    match chain.walk(header.parent_hash, Some(header.height)) {
                        Ok(lower) => {
                            assert(lower.push(header) + walk.taken.reverse() =~= lower
                                + taken.reverse());
                        },
                        Err(_) => {},
                    }
                }
            }
        },
    }
}

/// What holds of the headers that a walk from `hash` gives: they are linked
/// by hash and height; the last is the header of `hash`; the first is at the
/// start height or the child of a known block; none is known; there is
/// none exactly if `hash` is known.
pub proof fn lemma_walk(chain: ChainView, hash: BitcoinBlockHash, below: Option<u64>)
    ensures
        chain.walk(hash, below) matches Ok(headers) ==> {
            &&& linked(headers)
            &&& headers.len() == 0 <==> chain.known.contains(hash)
            &&& headers.len() > 0 ==> fits(headers.last(), hash, below)
            &&& headers.len() > 0 ==> headers[0].height == chain.start_height
                || chain.known.contains(headers[0].parent_hash)
            &&& forall|i: int|
                0 <= i < headers.len() ==> !chain.known.contains((#[trigger] headers[i]).hash)
                    && chain.headers.dom().contains(headers[i].hash)
                    && chain.headers[headers[i].hash] == headers[i]
        },
    decreases room(below),
{
    match chain.answer(hash) {
        ChainAnswer::Header(header) => {
            if fits(header, hash, below) && header.height != chain.start_height {
                lemma_walk(chain, header.parent_hash, Some(header.height));
                match chain.walk(header.parent_hash, Some(header.height)) {
                    Ok(lower) => {
                        let headers = lower.push(header);
                        assert forall|i: int| 0 <= i < headers.len() - 1 implies (
                        #[trigger] headers[i]).hash == headers[i + 1].parent_hash
                            && headers[i].height + 1 == headers[i + 1].height by {
                            if i < lower.len() - 1 {
                                assert(headers[i] == lower[i]);
                                assert(headers[i + 1] == lower[i + 1]);
                            } else {
                                assert(headers[i] == lower.last());
                            }
                        }
                        if lower.len() > 0 {
                            assert(headers[0] == lower[0]);
                        }
                        assert forall|i: int| 0 <= i < headers.len() implies !chain.known.contains(
                            (#[trigger] headers[i]).hash,
                        ) && chain.headers.dom().contains(headers[i].hash)
                            && chain.headers[headers[i].hash] == headers[i] by {
                            if i < lower.len() {
                                assert(headers[i] == lower[i]);
                            }
                        }
                    },
                    Err(_) => {},
                }
            }
        },
        _ => {},
    }
}

/// Headers that are linked by hash and height are in the order of their
/// heights.
pub proof fn lemma_linked_ascending(headers: Seq<BitcoinBlockHeader>)
    requires
        linked(headers),
    ensures
        ascending(headers),
        forall|i: int|
            0 <= i < headers.len() ==> (#[trigger] headers[i]).height == headers[0].height + i,
    decreases headers.len(),
{
    if headers.len() > 1 {
        let front = headers.drop_last();
        assert forall|i: int| 0 <= i < front.len() - 1 implies (#[trigger] front[i]).hash
            == front[i + 1].parent_hash && front[i].height + 1 == front[i + 1].height by {
            assert(front[i] == headers[i]);
            assert(front[i + 1] == headers[i + 1]);
        }
        lemma_linked_ascending(front);
        let n = headers.len() - 1;
        assert(front[n - 1] == headers[n - 1]);
        assert(headers[n - 1].height + 1 == headers[n].height);
        assert forall|i: int| 0 <= i < headers.len() implies (#[trigger] headers[i]).height
            == headers[0].height + i by {
            if i < n {
                assert(front[i] == headers[i]);
            }
        }
    }
}

/// The headers to process for a reported tip are in the order of their
/// heights, lowest first. If there are any, the last is the header of the
/// tip, and the first is at the start height or the child of a block that the
/// store knows.
pub proof fn law_headers_ascend_to_tip(chain: ChainView, tip: BitcoinBlockHash)
    ensures
        chain.headers_to_process(tip) matches Ok(headers) ==> {
            &&& ascending(headers)
            &&& linked(headers)
            &&& headers.len() > 0 ==> headers.last().hash == tip
            &&& headers.len() > 0 ==> headers[0].height == chain.start_height
                || chain.known.contains(headers[0].parent_hash)
        },
{
    lemma_walk(chain, tip, None);
    match chain.headers_to_process(tip) {
        Ok(headers) => {
            lemma_linked_ascending(headers);
        },
        Err(_) => {},
    }
}

/// No header that the store knows is among the headers to process, whatever
/// the tip. For a tip that the store knows there is nothing to process.
pub proof fn law_known_headers_are_not_processed(chain: ChainView, tip: BitcoinBlockHash)
    ensures
        chain.headers_to_process(tip) matches Ok(headers) ==> forall|i: int|
            0 <= i < headers.len() ==> !chain.known.contains((#[trigger] headers[i]).hash),
        chain.known.contains(tip) ==> chain.headers_to_process(tip) == Ok::<
            Seq<BitcoinBlockHeader>,
            Error,
        >(Seq::empty()),
{
    lemma_walk(chain, tip, None);
}

/// The chain once the first `k` of `headers` are known too.
pub open spec fn with_known(
    chain: ChainView,
    headers: Seq<BitcoinBlockHeader>,
    k: int,
) -> ChainView {
    ChainView {
        known: Set::new(
            |hash: BitcoinBlockHash|
                chain.known.contains(hash) || exists|i: int|
                    0 <= i < k && i < headers.len() && (#[trigger] headers[i]).hash == hash,
        ),
        ..chain
    }
}

/// Once the first `k` headers of a walk are known, the walk gives the rest.
proof fn lemma_walk_resumes(
    chain: ChainView,
    hash: BitcoinBlockHash,
    below: Option<u64>,
    k: int,
)
    requires
        chain.walk(hash, below) is Ok,
        0 <= k <= chain.walk(hash, below).unwrap().len(),
    ensures
        with_known(chain, chain.walk(hash, below).unwrap(), k).walk(hash, below) == Ok::<
            Seq<BitcoinBlockHeader>,
            Error,
        >(chain.walk(hash, below).unwrap().skip(k)),
    decreases room(below),
{
    let headers = chain.walk(hash, below).unwrap();
    let later = with_known(chain, headers, k);
    lemma_walk(chain, hash, below);
    match chain.answer(hash) {
        ChainAnswer::Known => {
            assert(later.known.contains(hash));
            assert(headers.skip(k) =~= Seq::empty());
        },
        ChainAnswer::Missing => {},
        ChainAnswer::Header(header) => {
            lemma_linked_ascending(headers);
            if header.height == chain.start_height {
                assert(headers =~= seq![header]);
                if k == 1 {
                    assert(headers[0].hash == hash);
                    assert(later.known.contains(hash));
                    assert(headers.skip(k) =~= Seq::empty());
                } else {
                    assert(!later.known.contains(hash));
                    assert(headers.skip(k) =~= headers);
                }
            } else {
                let lower = chain.walk(header.parent_hash, Some(header.height)).unwrap();
                assert(headers =~= lower.push(header));
                let n = headers.len() - 1;
                assert(headers[n] == header);
                if k == headers.len() {
                    assert(later.known.contains(hash));
                    assert(headers.skip(k) =~= Seq::empty());
                } else {
                    assert(!later.known.contains(hash)) by {
                        if later.known.contains(hash) {
                            let i = choose|i: int|
                                0 <= i < k && i < headers.len() && (#[trigger] headers[i]).hash
                                    == hash;
                            assert(chain.headers[headers[i].hash] == headers[i]);
                            assert(chain.headers[headers[n].hash] == headers[n]);
                            assert(headers[i].height < headers[n].height);
                        }
                    }
                    lemma_walk_resumes(chain, header.parent_hash, Some(header.height), k);
                    let lower_later = with_known(chain, lower, k);
                    assert(lower_later.known =~= later.known) by {
                        assert forall|h: BitcoinBlockHash|
                            lower_later.known.contains(h) == later.known.contains(h) by {
                            if lower_later.known.contains(h) && !chain.known.contains(h) {
                                let i = choose|i: int|
                                    0 <= i < k && i < lower.len() && (#[trigger] lower[i]).hash
                                        == h;
                                assert(headers[i] == lower[i]);
                            }
                            if later.known.contains(h) && !chain.known.contains(h) {
                                let i = choose|i: int|
                                    0 <= i < k && i < headers.len() && (#[trigger] headers[i]).hash
                                        == h;
                                assert(headers[i] == lower[i]);
                            }
                        }
                    }
                    assert(lower_later == later);
                    assert(headers.skip(k) =~= lower.skip(k).push(header));
                }
            }
        },
    }
}

/// The backfill can be taken up again where it stopped: once the first `k`
/// of the headers to process are known, what is left to process for the
/// same tip are the others.
pub proof fn law_backfill_is_restartable(chain: ChainView, tip: BitcoinBlockHash, k: int)
    requires
        chain.headers_to_process(tip) is Ok,
        0 <= k <= chain.headers_to_process(tip).unwrap().len(),
    ensures
        with_known(chain, chain.headers_to_process(tip).unwrap(), k).headers_to_process(tip)
            == Ok::<Seq<BitcoinBlockHeader>, Error>(
            chain.headers_to_process(tip).unwrap().skip(k),
        ),
{
    lemma_walk_resumes(chain, tip, None, k);
}

} // verus!
