use crate::types::{BlockInfo, OpenRequest, SystemConfig};
use vstd::prelude::*;

verus! {

/// Why a pull produced no item.
#[derive(Clone, Copy, Debug, PartialEq, Eq, Structural)]
pub enum RetrievalError {
    /// The traversal stage has no further L1 block; retry once L1 advances.
    UpstreamExhausted,
    /// The open feed has no more items; the next pull moves to the next block.
    IterationExhausted,
}

/// The feed part of the stage's state, with a feed seen as the items it has
/// yet to produce.
pub enum FeedModel<T> {
    /// No feed is open. `awaiting` is the feed to open before any other, set
    /// when the stage advanced to a block or was reset and the open has not
    /// succeeded yet.
    Idle { awaiting: Option<OpenRequest> },
    /// A feed opened for `source` is open and will produce `items`.
    Active { source: OpenRequest, items: Seq<T> },
}

/// The retrieval stage as a state: what its traversal stage reports, and its
/// feed.
pub struct StageModel<T> {
    pub origin: Option<BlockInfo>,
    pub upcoming: Seq<BlockInfo>,
    pub config: SystemConfig,
    pub feed: FeedModel<T>,
}

/// The items published in `blocks`, one block after the other, each opened
/// for `cfg`'s batcher, where `da` gives what an open yields.
pub open spec fn published<T>(
    blocks: Seq<BlockInfo>,
    cfg: SystemConfig,
    da: spec_fn(OpenRequest) -> Seq<T>,
) -> Seq<T>
    decreases blocks.len(),
{
    if blocks.len() == 0 {
        Seq::empty()
    } else {
        da(OpenRequest::spec_for(blocks[0], cfg)) + published(blocks.drop_first(), cfg, da)
    }
}

impl<T> StageModel<T> {
    /// The first half of a pull: with no feed open, advance the traversal
    /// stage and name the feed to open; with one awaiting its open, name it
    /// again; with one open, name none.
    pub open spec fn start_step(self) -> (Self, Result<Option<OpenRequest>, RetrievalError>) {
        match self.feed {
            FeedModel::Active { .. } => (self, Ok(None)),
            FeedModel::Idle { awaiting: Some(req) } => (self, Ok(Some(req))),
            FeedModel::Idle { awaiting: None } => {
                if self.upcoming.len() == 0 {
                    (self, Err(RetrievalError::UpstreamExhausted))
                } else {
                    let req = OpenRequest::spec_for(self.upcoming[0], self.config);
                    (
                        StageModel {
                            origin: Some(self.upcoming[0]),
                            upcoming: self.upcoming.drop_first(),
                            feed: FeedModel::Idle { awaiting: Some(req) },
                            ..self
                        },
                        Ok(Some(req)),
                    )
                }
            },
        }
    }

    /// The feed awaiting its open has been opened and yields `items`.
    pub open spec fn install(self, items: Seq<T>) -> Self
        recommends
            self.feed matches FeedModel::Idle { awaiting: Some(_) },
    {
        match self.feed {
            FeedModel::Idle { awaiting: Some(req) } => StageModel {
                feed: FeedModel::Active { source: req, items },
                ..self
            },
            _ => self,
        }
    }

    /// The second half of a pull: take the next item of the open feed, or
    /// close the feed once it is drained.
    pub open spec fn take_item(self) -> (Self, Result<T, RetrievalError>)
        recommends
            self.feed is Active,
    {
        match self.feed {
            FeedModel::Active { source, items } => {
                if items.len() == 0 {
                    (
                        StageModel { feed: FeedModel::Idle { awaiting: None }, ..self },
                        Err(RetrievalError::IterationExhausted),
                    )
                } else {
                    (
                        StageModel {
                            feed: FeedModel::Active { source, items: items.drop_first() },
                            ..self
                        },
                        Ok(items[0]),
                    )
                }
            },
            _ => (self, Err(RetrievalError::IterationExhausted)),
        }
    }

    /// Reset to `base` under `cfg`: whatever feed there was is dropped, and the
    /// feed of `base` for `cfg`'s batcher is the one to open. The traversal
    /// stage is left as it is.
    pub open spec fn reset(self, base: BlockInfo, cfg: SystemConfig) -> (Self, OpenRequest) {
        let req = OpenRequest::spec_for(base, cfg);
        (StageModel { feed: FeedModel::Idle { awaiting: Some(req) }, ..self }, req)
    }

    /// A whole pull, where every open succeeds and yields what `da` gives.
    pub open spec fn pull(self, da: spec_fn(OpenRequest) -> Seq<T>) -> (Self, Result<T, RetrievalError>) {
        let (s, r) = self.start_step();
        match r {
            Err(e) => (s, Err(e)),
            Ok(None) => s.take_item(),
            Ok(Some(req)) => s.install(da(req)).take_item(),
        }
    }

    /// Where the feed stands in the order in which a pull moves it on: a
    /// feed awaiting its open, then an open feed, then none.
    pub open spec fn phase_rank(self) -> nat {
        match self.feed {
            FeedModel::Idle { awaiting: Some(_) } => 2,
            FeedModel::Active { .. } => 1,
            FeedModel::Idle { awaiting: None } => 0,
        }
    }

    /// The number of items that the open feed has yet to produce.
    pub open spec fn item_count(self) -> nat {
        match self.feed {
            FeedModel::Active { items, .. } => items.len(),
            _ => 0,
        }
    }

    /// The items that pulls return, in order, from this state until the
    /// traversal stage is exhausted, pulling again after each drained feed.
    pub open spec fn drain(self, da: spec_fn(OpenRequest) -> Seq<T>) -> Seq<T>
        decreases self.upcoming.len(), self.phase_rank(), self.item_count(),
    {
        let (s, r) = self.pull(da);
        match r {
            Ok(x) => seq![x] + s.drain(da),
            Err(RetrievalError::IterationExhausted) => s.drain(da),
            Err(RetrievalError::UpstreamExhausted) => Seq::empty(),
        }
    }
}

} // verus!
