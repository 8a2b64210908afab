use alloy_primitives::Address;
use l1_retrieval::{
    BlockInfo, DataIter, L1Retrieval, L1Traversal, OpenRequest, RetrievalError, SystemConfig,
    Traversal, VecFeed,
};
use std::collections::HashMap;

type Stage = L1Retrieval<L1Traversal, Provider, VecFeed<Vec<u8>>>;

/// Serves, for each block number, the items published there; opening any
/// other block fails.
struct Provider {
    feeds: HashMap<u64, Vec<Vec<u8>>>,
}

#[derive(Debug, PartialEq)]
enum Failure {
    Stage(RetrievalError),
    OpenFailed(u64),
}

fn block(number: u64) -> BlockInfo {
    BlockInfo {
        hash: [number as u8; 32],
        number,
        parent_hash: [number.wrapping_sub(1) as u8; 32],
        timestamp: 1_000 + 12 * number,
    }
}

fn config(byte: u8) -> SystemConfig {
    SystemConfig { batcher_addr: Address::repeat_byte(byte) }
}

fn open(provider: &Provider, req: &OpenRequest) -> Result<VecFeed<Vec<u8>>, Failure> {
    let items = provider.feeds.get(&req.block.number).ok_or(Failure::OpenFailed(req.block.number))?;
    let mut feed = VecFeed::new();
    for item in items {
        feed.push(item.clone());
    }
    Ok(feed)
}

/// One pull, as a driver performs it.
fn pull(stage: &mut Stage) -> Result<Vec<u8>, Failure> {
    if let Some(req) = stage.start_pull().map_err(Failure::Stage)? {
        let feed = open(&stage.provider, &req)?;
        stage.install_feed(feed);
    }
    stage.pull_item().map_err(Failure::Stage)
}

/// Pulls until L1 is exhausted, pulling again after each drained feed.
fn drain(stage: &mut Stage) -> Vec<Vec<u8>> {
    let mut out = Vec::new();
    loop {
        match pull(stage) {
            Ok(item) => out.push(item),
            Err(Failure::Stage(RetrievalError::IterationExhausted)) => {}
            Err(Failure::Stage(RetrievalError::UpstreamExhausted)) => return out,
            Err(other) => panic!("unexpected failure: {:?}", other),
        }
    }
}

fn stage(blocks: &[u64], feeds: &[(u64, Vec<Vec<u8>>)]) -> Stage {
    let mut traversal = L1Traversal::new(config(0xbb));
    for n in blocks {
        traversal.push_block(block(*n));
    }
    let provider = Provider { feeds: feeds.iter().cloned().collect() };
    L1Retrieval::new(traversal, provider)
}

#[test]
fn pulls_return_every_block_in_order() {
    let mut st = stage(
        &[1, 2, 3, 4],
        &[
            (1, vec![vec![1], vec![2, 2]]),
            (2, vec![]),
            (3, vec![vec![3]]),
            (4, vec![vec![4], vec![5], vec![6]]),
        ],
    );
    assert_eq!(
        drain(&mut st),
        vec![vec![1], vec![2, 2], vec![3], vec![4], vec![5], vec![6]]
    );
    assert_eq!(st.origin(), Some(&block(4)));
}

#[test]
fn exhausted_traversal_is_reported_again_and_again() {
    let mut st = stage(&[], &[]);
    for _ in 0..3 {
        assert_eq!(pull(&mut st), Err(Failure::Stage(RetrievalError::UpstreamExhausted)));
        assert!(!st.has_feed());
        assert_eq!(st.awaiting_open(), None);
        assert_eq!(st.origin(), None);
    }
}

#[test]
fn drained_feed_is_followed_by_next_block() {
    let mut st = stage(&[1, 2], &[(1, vec![vec![1]]), (2, vec![vec![2]])]);
    assert_eq!(pull(&mut st), Ok(vec![1]));
    assert_eq!(pull(&mut st), Err(Failure::Stage(RetrievalError::IterationExhausted)));
    assert!(!st.has_feed());
    assert_eq!(st.origin(), Some(&block(1)));
    let req = st.start_pull().unwrap().unwrap();
    assert_eq!(req.block, block(2));
    assert_eq!(st.origin(), Some(&block(2)));
}

#[test]
fn reset_replaces_a_feed_with_items_left() {
    let mut st = stage(&[1], &[(0, vec![vec![0xa0], vec![0xa1]]), (1, vec![vec![1], vec![2]])]);
    assert_eq!(pull(&mut st), Ok(vec![1]));
    let req = st.start_reset(block(0), &config(0xcc));
    assert_eq!(req, OpenRequest { block: block(0), batcher: Address::repeat_byte(0xcc) });
    assert!(!st.has_feed());
    assert_eq!(st.awaiting_open(), Some(req));
    assert_eq!(st.origin(), Some(&block(1)));
    let feed = open(&st.provider, &req).unwrap();
    st.install_feed(feed);
    assert!(st.has_feed());
    assert_eq!(pull(&mut st), Ok(vec![0xa0]));
}

#[test]
fn reset_from_idle_opens_the_given_block() {
    let mut st = stage(&[], &[(7, vec![vec![7]])]);
    let req = st.start_reset(block(7), &config(0x01));
    assert_eq!(req.batcher, Address::repeat_byte(0x01));
    assert_eq!(pull(&mut st), Ok(vec![7]));
    assert_eq!(pull(&mut st), Err(Failure::Stage(RetrievalError::IterationExhausted)));
    assert_eq!(pull(&mut st), Err(Failure::Stage(RetrievalError::UpstreamExhausted)));
}

#[test]
fn two_blocks_then_upstream_exhausted_twice() {
    let (d1, d2, d3) = (vec![0xd1], vec![0xd2], vec![0xd3]);
    let mut st = stage(&[1, 2], &[(1, vec![d1.clone(), d2.clone()]), (2, vec![d3.clone()])]);
    assert_eq!(drain(&mut st), vec![d1, d2, d3]);
    assert_eq!(pull(&mut st), Err(Failure::Stage(RetrievalError::UpstreamExhausted)));
    assert_eq!(pull(&mut st), Err(Failure::Stage(RetrievalError::UpstreamExhausted)));
}

#[test]
fn failed_open_is_retried_on_the_same_block() {
    let mut st = stage(&[1, 2, 3], &[(1, vec![vec![1]]), (3, vec![vec![3]])]);
    assert_eq!(pull(&mut st), Ok(vec![1]));
    assert_eq!(pull(&mut st), Err(Failure::Stage(RetrievalError::IterationExhausted)));
    assert_eq!(pull(&mut st), Err(Failure::OpenFailed(2)));
    assert!(!st.has_feed());
    assert_eq!(st.origin(), Some(&block(2)));
    assert_eq!(pull(&mut st), Err(Failure::OpenFailed(2)));
    assert_eq!(st.origin(), Some(&block(2)));
    st.provider.feeds.insert(2, vec![vec![2]]);
    assert_eq!(pull(&mut st), Ok(vec![2]));
    assert_eq!(pull(&mut st), Err(Failure::Stage(RetrievalError::IterationExhausted)));
    assert_eq!(pull(&mut st), Ok(vec![3]));
}

#[test]
fn reset_to_earlier_block_serves_it_first() {
    let mut st = stage(
        &[1, 2],
        &[(0, vec![vec![0xb0], vec![0xb1]]), (1, vec![vec![1], vec![2], vec![3]])],
    );
    assert_eq!(pull(&mut st), Ok(vec![1]));
    let req = st.start_reset(block(0), &config(0x0b));
    let feed = open(&st.provider, &req).unwrap();
    st.install_feed(feed);
    assert_eq!(pull(&mut st), Ok(vec![0xb0]));
    assert_eq!(pull(&mut st), Ok(vec![0xb1]));
}

#[test]
fn open_request_names_the_current_batcher() {
    let mut traversal = L1Traversal::new(config(0x11));
    traversal.push_block(block(5));
    traversal.set_system_config(config(0x22));
    let mut st: Stage = L1Retrieval::new(traversal, Provider { feeds: HashMap::new() });
    assert_eq!(st.origin(), None);
    let req = st.start_pull().unwrap().unwrap();
    assert_eq!(req, OpenRequest { block: block(5), batcher: Address::repeat_byte(0x22) });
    assert_eq!(st.start_pull(), Ok(Some(req)));
}

#[test]
fn start_pull_with_open_feed_names_none() {
    let mut st = stage(&[1], &[(1, vec![vec![1], vec![2]])]);
    assert_eq!(pull(&mut st), Ok(vec![1]));
    assert_eq!(st.start_pull(), Ok(None));
    assert_eq!(st.pull_item(), Ok(vec![2]));
    assert_eq!(st.pull_item(), Err(RetrievalError::IterationExhausted));
    assert!(!st.has_feed());
}

#[test]
fn traversal_advances_one_block_at_a_time() {
    let mut t = L1Traversal::new(config(0));
    assert_eq!(t.origin(), None);
    assert_eq!(t.next_l1_block(), None);
    t.push_block(block(1));
    t.push_block(block(2));
    assert_eq!(t.next_l1_block(), Some(block(1)));
    assert_eq!(t.origin(), Some(&block(1)));
    assert_eq!(t.next_l1_block(), Some(block(2)));
    assert_eq!(t.next_l1_block(), None);
    assert_eq!(t.origin(), Some(&block(2)));
    assert_eq!(t.system_config(), &config(0));
}

#[test]
fn vec_feed_yields_items_in_order() {
    let mut f = VecFeed::new();
    f.push(3u32);
    f.push(1u32);
    assert_eq!(f.next(), Some(3));
    assert_eq!(f.next(), Some(1));
    assert_eq!(f.next(), None);
    assert_eq!(f.next(), None);
}

#[test]
fn open_request_for_block_uses_config_batcher() {
    let req = OpenRequest::for_block(block(9), &config(0x42));
    assert_eq!(req.block, block(9));
    assert_eq!(req.batcher, Address::repeat_byte(0x42));
}
