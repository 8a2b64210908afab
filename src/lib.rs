//! The L1 retrieval stage of a rollup derivation pipeline.
//!
//! For each L1 block that the traversal stage advances to, the stage opens a
//! per-block feed of batcher data and hands its items out one at a time.
//! Opening a feed is asynchronous work of a data-availability provider; the
//! stage itself only decides what to open and when, so that work is carried
//! out by the caller between [`L1Retrieval::start_pull`] and
//! [`L1Retrieval::install_feed`].

mod feed;
mod laws;
mod model;
mod retrieval;
mod traversal;
mod types;

pub use feed::{DataIter, VecFeed};
pub use laws::{
    lemma_drained_feed_advances, lemma_exhausted_is_stable, lemma_failed_open_is_retried,
    lemma_pulls_concatenate, lemma_reset_replaces_feed,
};
pub use model::{published, FeedModel, RetrievalError, StageModel};
pub use retrieval::L1Retrieval;
pub use traversal::{L1Traversal, Traversal};
pub use types::{BlockInfo, OpenRequest, SystemConfig};
