use crate::feed::DataIter;
use crate::model::{FeedModel, RetrievalError, StageModel};
use crate::traversal::Traversal;
use crate::types::{BlockInfo, OpenRequest, SystemConfig};
use vstd::prelude::*;

verus! {

enum FeedState<F> {
    Idle { awaiting: Option<OpenRequest> },
    Active { source: OpenRequest, feed: F },
}

/// The L1 retrieval stage: for each block that the traversal stage `prev`
/// advances to, the feed of the batcher's data there, drained item by item.
///
/// A pull is [`L1Retrieval::start_pull`], then, where it names a feed, the
/// caller's open of that feed with `provider` and [`L1Retrieval::install_feed`],
/// then [`L1Retrieval::pull_item`]. Where the open fails, the stage stays
/// without a feed and the next pull names the same feed again.
pub struct L1Retrieval<P, DAP, F> {
    /// The previous stage in the pipeline.
    pub prev: P,
    /// The data-availability provider that opens the feeds.
    pub provider: DAP,
    data: FeedState<F>,
}

impl<P: Traversal, DAP, F: DataIter> L1Retrieval<P, DAP, F> {
    /// The stage as a state.
    pub closed spec fn model(&self) -> StageModel<F::Item> {
        StageModel {
            origin: self.prev.origin_view(),
            upcoming: self.prev.upcoming(),
            config: self.prev.config_view(),
            feed: match self.data {
                FeedState::Idle { awaiting } => FeedModel::Idle { awaiting },
                FeedState::Active { source, feed } => FeedModel::Active { source, items: feed.items() },
            },
        }
    }

    /// The data-availability provider.
    pub closed spec fn provider_view(&self) -> DAP {
        self.provider
    }

    /// A stage over `prev` with no feed open.
    pub fn new(prev: P, provider: DAP) -> (r: Self)
        ensures
            r.provider_view() == provider,
            r.model() == (StageModel::<F::Item> {
                origin: prev.origin_view(),
                upcoming: prev.upcoming(),
                config: prev.config_view(),
                feed: FeedModel::Idle { awaiting: None },
            }),
    {
        L1Retrieval { prev, provider, data: FeedState::Idle { awaiting: None } }
    }

    /// The block that the traversal stage has reached, if it has started.
    pub fn origin(&self) -> (r: Option<&BlockInfo>)
        ensures
            r.is_some() == self.model().origin.is_some(),
            r.is_some() ==> *r.unwrap() == self.model().origin.unwrap(),
    {
        self.prev.origin()
    }

    /// Whether a feed is open.
    pub fn has_feed(&self) -> (r: bool)
        ensures
            r == (self.model().feed is Active),
    {
        match &self.data {
            FeedState::Active { .. } => true,
            FeedState::Idle { .. } => false,
        }
    }

    /// The feed to open before any other, if one awaits its open.
    pub fn awaiting_open(&self) -> (r: Option<OpenRequest>)
        ensures
            r == match self.model().feed {
                FeedModel::Idle { awaiting } => awaiting,
                FeedModel::Active { .. } => None,
            },
    {
        match &self.data {
            FeedState::Idle { awaiting } => *awaiting,
            FeedState::Active { .. } => None,
        }
    }

    /// Starts a pull. Returns the feed that the caller must open before the
    /// item can be taken, `None` where a feed is open already, or
    /// `UpstreamExhausted` where no feed is open or awaited and the traversal
    /// stage has no further block.
    pub fn start_pull(&mut self) -> (r: Result<Option<OpenRequest>, RetrievalError>)
        ensures
            (final(self).model(), r) == old(self).model().start_step(),
            final(self).provider_view() == old(self).provider_view(),
    {
        let awaiting = match &self.data {
            FeedState::Active { .. } => {
                return Ok(None);
            },
            FeedState::Idle { awaiting } => *awaiting,
        };
        match awaiting {
            Some(req) => Ok(Some(req)),
            None => match self.prev.next_l1_block() {
                None => Err(RetrievalError::UpstreamExhausted),
                Some(block) => {
                    let req = OpenRequest::for_block(block, self.prev.system_config());
                    self.data = FeedState::Idle { awaiting: Some(req) };
                    Ok(Some(req))
                },
            },
        }
    }

    /// Takes `feed`, opened for the request that awaits its open, as the
    /// open feed.
    pub fn install_feed(&mut self, feed: F)
        requires
            old(self).model().feed matches FeedModel::Idle { awaiting: Some(_) },
        ensures
            final(self).model() == old(self).model().install(feed.items()),
            final(self).provider_view() == old(self).provider_view(),
    {
        let source = match &self.data {
            FeedState::Idle { awaiting: Some(req) } => *req,
            _ => {
                return;
            },
        };
        self.data = FeedState::Active { source, feed };
    }

    /// Ends a pull: the next item of the open feed, or `IterationExhausted`,
    /// with the feed closed, once it has none.
    pub fn pull_item(&mut self) -> (r: Result<F::Item, RetrievalError>)
        requires
            old(self).model().feed is Active,
        ensures
            (final(self).model(), r) == old(self).model().take_item(),
            final(self).provider_view() == old(self).provider_view(),
    {
        let item = match &mut self.data {
            FeedState::Active { feed, .. } => feed.next(),
            FeedState::Idle { .. } => {
                return Err(RetrievalError::IterationExhausted);
            },
        };
        match item {
            Some(x) => Ok(x),
            None => {
                self.data = FeedState::Idle { awaiting: None };
                Err(RetrievalError::IterationExhausted)
            },
        }
    }

    /// Starts a reset to `base` under `cfg`: drops any feed, open or awaited,
    /// and returns the feed of `base` for `cfg`'s batcher, which the caller
    /// opens and hands to [`L1Retrieval::install_feed`].
    pub fn start_reset(&mut self, base: BlockInfo, cfg: &SystemConfig) -> (r: OpenRequest)
        ensures
            (final(self).model(), r) == old(self).model().reset(base, *cfg),
            final(self).provider_view() == old(self).provider_view(),
    {
        let req = OpenRequest::for_block(base, cfg);
        self.data = FeedState::Idle { awaiting: Some(req) };
        req
    }
}

} // verus!
