use sbtc_bridge::signer::chain::{
    headers_to_process, ChainAnswer, HeaderSource, HeaderWalk, WalkStep,
};
use sbtc_bridge::signer::error::Error;
use sbtc_bridge::signer::model::{BitcoinBlock, BitcoinBlockHeader, Hash256};
use sbtc_bridge::signer::store::Store;

fn hash(n: u8) -> Hash256 {
    let mut bytes = [0u8; 32];
    bytes[0] = n;
    bytes[31] = 0xab;
    Hash256 { bytes }
}

fn header(n: u8, height: u64) -> BitcoinBlockHeader {
    BitcoinBlockHeader { hash: hash(n), height, parent_hash: hash(n - 1) }
}

/// A source with the headers of the blocks 1..=tip, block n at height 100 + n.
fn chain(tip: u8) -> HeaderSource {
    let mut source = HeaderSource::new();
    for n in 1..=tip {
        source.add(header(n, 100 + n as u64));
    }
    source
}

#[test]
fn next_headers_to_process_gets_all_headers() {
    let source = chain(5);
    let store = Store::new();
    let headers = headers_to_process(&source, &store, 103, hash(5)).unwrap();
    assert_eq!(headers, vec![header(3, 103), header(4, 104), header(5, 105)]);
    let mut sorted = headers.clone();
    sorted.sort_by_key(|h| h.height);
    assert_eq!(headers, sorted);
    assert_eq!(headers[0].height, 103);
    assert_eq!(headers.last().map(|h| h.hash), Some(hash(5)));

    let source = chain(6);
    let headers2 = headers_to_process(&source, &store, 103, hash(6)).unwrap();
    assert_eq!(headers2.len(), headers.len() + 1);
    assert_eq!(headers2[0].height, 103);
    assert_eq!(headers2.last().map(|h| h.hash), Some(hash(6)));
}

#[test]
fn next_headers_to_process_ignores_known_headers() {
    let source = chain(5);
    let mut store = Store::new();
    let headers = headers_to_process(&source, &store, 101, hash(5)).unwrap();
    assert_eq!(headers.len(), 5);
    assert_eq!(headers.last().map(|h| h.hash), Some(hash(5)));

    let chain_tip_header = headers.last().cloned().unwrap();
    let block = BitcoinBlock::from(chain_tip_header);
    store.write_bitcoin_block(&block);
    let headers = headers_to_process(&source, &store, 101, hash(5)).unwrap();
    assert!(headers.is_empty());
}

#[test]
fn backfill_resumes_where_it_stopped() {
    let source = chain(8);
    let mut store = Store::new();
    let all = headers_to_process(&source, &store, 102, hash(8)).unwrap();
    assert_eq!(all.len(), 7);
    for k in 0..all.len() {
        let rest = headers_to_process(&source, &store, 102, hash(8)).unwrap();
        assert_eq!(rest, all[k..].to_vec());
        store.write_bitcoin_block(&BitcoinBlock::from_header(all[k]));
    }
    assert!(headers_to_process(&source, &store, 102, hash(8)).unwrap().is_empty());
}

#[test]
fn walk_stops_at_a_known_ancestor() {
    let source = chain(7);
    let mut store = Store::new();
    store.write_bitcoin_block(&BitcoinBlock::from_header(header(4, 104)));
    let headers = headers_to_process(&source, &store, 0, hash(7)).unwrap();
    assert_eq!(headers, vec![header(5, 105), header(6, 106), header(7, 107)]);
    assert_eq!(headers[0].parent_hash, hash(4));
}

#[test]
fn walk_finds_the_fork_point_by_hash() {
    let mut source = chain(4);
    // A fork off block 2: blocks 13 and 14 at the heights of blocks 3 and 4.
    source.add(BitcoinBlockHeader { hash: hash(13), height: 103, parent_hash: hash(2) });
    source.add(BitcoinBlockHeader { hash: hash(14), height: 104, parent_hash: hash(13) });
    let mut store = Store::new();
    for n in 1..=4u8 {
        store.write_bitcoin_block(&BitcoinBlock::from_header(header(n, 100 + n as u64)));
    }
    let headers = headers_to_process(&source, &store, 0, hash(14)).unwrap();
    assert_eq!(
        headers,
        vec![
            BitcoinBlockHeader { hash: hash(13), height: 103, parent_hash: hash(2) },
            BitcoinBlockHeader { hash: hash(14), height: 104, parent_hash: hash(13) },
        ]
    );
}

#[test]
fn missing_ancestor_is_chain_data_unavailable() {
    let source = chain(3);
    let store = Store::new();
    // Block 1's parent, block 0, is not in the source, and no block is at height 50.
    match headers_to_process(&source, &store, 50, hash(3)) {
        Err(Error::ChainDataUnavailable(h)) => assert_eq!(h, hash(0)),
        other => panic!("unexpected {:?}", other),
    }
    match headers_to_process(&source, &store, 50, hash(9)) {
        Err(Error::ChainDataUnavailable(h)) => assert_eq!(h, hash(9)),
        other => panic!("unexpected {:?}", other),
    }
}

#[test]
fn header_of_the_wrong_height_is_refused() {
    let mut source = HeaderSource::new();
    source.add(header(3, 103));
    source.add(header(2, 101));
    let store = Store::new();
    match headers_to_process(&source, &store, 0, hash(3)) {
        Err(Error::InconsistentHeader(h)) => assert_eq!(h, hash(2)),
        other => panic!("unexpected {:?}", other),
    }
}

#[test]
fn the_later_header_of_a_block_replaces_the_earlier() {
    let mut source = HeaderSource::new();
    source.add(header(2, 7));
    source.add(header(2, 102));
    assert_eq!(source.get_header(&hash(2)), Some(header(2, 102)));
    assert_eq!(source.get_header(&hash(3)), None);
}

#[test]
fn walk_takes_one_answer_at_a_time() {
    let walk = HeaderWalk::begin(hash(3), 102);
    assert_eq!(walk.next_hash(), hash(3));
    let walk = match walk.advance(ChainAnswer::Header(header(3, 103))) {
        Ok(WalkStep::Continue(walk)) => walk,
        other => panic!("unexpected {:?}", other),
    };
    assert_eq!(walk.next_hash(), hash(2));
    match walk.advance(ChainAnswer::Header(header(2, 102))) {
        Ok(WalkStep::Done(headers)) => {
            assert_eq!(headers, vec![header(2, 102), header(3, 103)])
        }
        other => panic!("unexpected {:?}", other),
    }

    let walk = HeaderWalk::begin(hash(3), 0);
    let walk = match walk.advance(ChainAnswer::Header(header(3, 103))) {
        Ok(WalkStep::Continue(walk)) => walk,
        other => panic!("unexpected {:?}", other),
    };
    match walk.advance(ChainAnswer::Known) {
        Ok(WalkStep::Done(headers)) => assert_eq!(headers, vec![header(3, 103)]),
        other => panic!("unexpected {:?}", other),
    }

    // A header of another block than the one asked for.
    let walk = HeaderWalk::begin(hash(3), 0);
    assert!(matches!(
        walk.advance(ChainAnswer::Header(header(4, 104))),
        Err(Error::InconsistentHeader(_))
    ));
    let walk = HeaderWalk::begin(hash(3), 0);
    assert!(matches!(
        walk.advance(ChainAnswer::Missing),
        Err(Error::ChainDataUnavailable(_))
    ));
}

#[test]
fn canonical_tip_is_the_highest_block() {
    let mut store = Store::new();
    assert_eq!(store.get_bitcoin_canonical_chain_tip(), None);
    store.write_bitcoin_block(&BitcoinBlock::from_header(header(2, 102)));
    store.write_bitcoin_block(&BitcoinBlock::from_header(header(4, 104)));
    store.write_bitcoin_block(&BitcoinBlock::from_header(header(3, 103)));
    store.write_bitcoin_block(&BitcoinBlock::from_header(header(14, 104)));
    assert_eq!(
        store.get_bitcoin_canonical_chain_tip(),
        Some(BitcoinBlock::from_header(header(4, 104)))
    );
    assert!(store.is_known_bitcoin_block_hash(&hash(3)));
    assert!(!store.is_known_bitcoin_block_hash(&hash(5)));
    assert_eq!(store.get_bitcoin_block(&hash(3)).map(|b| b.block_height), Some(103));
    // A block is written once.
    store.write_bitcoin_block(&BitcoinBlock {
        block_hash: hash(3),
        block_height: 999,
        parent_hash: hash(2),
    });
    assert_eq!(store.bitcoin_blocks().len(), 4);
    assert_eq!(store.get_bitcoin_block(&hash(3)).map(|b| b.block_height), Some(103));
}
