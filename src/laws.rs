use crate::model::{published, FeedModel, RetrievalError, StageModel};
use crate::types::{BlockInfo, OpenRequest, SystemConfig};
use vstd::prelude::*;

verus! {

/// Pulling from a state with an open feed returns the feed's remaining items,
/// then what pulls from the same state without a feed return.
proof fn lemma_drain_open_feed<T>(s: StageModel<T>, da: spec_fn(OpenRequest) -> Seq<T>)
    requires
        s.feed is Active,
    ensures
        s.drain(da) == s.feed->Active_items + (StageModel {
            feed: FeedModel::Idle { awaiting: None },
            ..s
        }).drain(da),
    decreases s.item_count(),
{
    let items = s.feed->Active_items;
    let idle = StageModel { feed: FeedModel::Idle { awaiting: None }, ..s };
    let (s1, r) = s.pull(da);
    if items.len() == 0 {
        assert(s1 == idle);
        assert(items + idle.drain(da) =~= idle.drain(da));
    } else {
        assert(r == Ok::<T, RetrievalError>(items[0]));
        lemma_drain_open_feed(s1, da);
        assert(StageModel { feed: FeedModel::Idle { awaiting: None }, ..s1 } == idle);
        assert(seq![items[0]] + (items.drop_first() + idle.drain(da)) =~= items + idle.drain(da));
    }
}

/// Pulled repeatedly from a state with no feed open or awaited, the stage
/// returns the items of every block that the traversal stage has available,
/// block after block and each block's items in their order, with nothing
/// repeated or left out, and then reports that L1 is exhausted.
pub proof fn lemma_pulls_concatenate<T>(s: StageModel<T>, da: spec_fn(OpenRequest) -> Seq<T>)
    requires
        s.feed == (FeedModel::<T>::Idle { awaiting: None }),
    ensures
        s.drain(da) == published(s.upcoming, s.config, da),
    decreases s.upcoming.len(),
{
    if s.upcoming.len() > 0 {
        let req = OpenRequest::spec_for(s.upcoming[0], s.config);
        let items = da(req);
        let (s1, _) = s.start_step();
        let opened = s1.install(items);
        let rest = StageModel { feed: FeedModel::Idle { awaiting: None }, ..s1 };
        lemma_pulls_concatenate(rest, da);
        lemma_drain_open_feed(opened, da);
        assert(StageModel { feed: FeedModel::Idle { awaiting: None }, ..opened } == rest);
        if items.len() == 0 {
            assert(s.pull(da).0 == rest);
            assert(items + rest.drain(da) =~= rest.drain(da));
        } else {
            let next = s.pull(da).0;
            assert(next == StageModel {
                feed: FeedModel::Active { source: req, items: items.drop_first() },
                ..s1
            });
            lemma_drain_open_feed(next, da);
            assert(StageModel { feed: FeedModel::Idle { awaiting: None }, ..next } == rest);
            assert(seq![items[0]] + (items.drop_first() + rest.drain(da)) =~= items + rest.drain(da));
        }
    }
}

/// With no feed open or awaited and no block available, a pull reports that
/// L1 is exhausted and leaves the stage as it was, so pulling again does the
/// same.
pub proof fn lemma_exhausted_is_stable<T>(s: StageModel<T>, da: spec_fn(OpenRequest) -> Seq<T>)
    requires
        s.feed == (FeedModel::<T>::Idle { awaiting: None }),
        s.upcoming.len() == 0,
    ensures
        s.pull(da).0 == s,
        s.pull(da).1 == Err::<T, RetrievalError>(RetrievalError::UpstreamExhausted),
        s.pull(da).0.pull(da).1 == Err::<T, RetrievalError>(RetrievalError::UpstreamExhausted),
{
}

/// A pull on a drained feed closes it, and the pull after that advances the
/// traversal stage to its next block and opens that block's feed, never the
/// drained one.
pub proof fn lemma_drained_feed_advances<T>(s: StageModel<T>, da: spec_fn(OpenRequest) -> Seq<T>)
    requires
        s.feed is Active,
        s.feed->Active_items.len() == 0,
    ensures
        s.pull(da).1 == Err::<T, RetrievalError>(RetrievalError::IterationExhausted),
        s.pull(da).0 == (StageModel { feed: FeedModel::Idle { awaiting: None }, ..s }),
        s.upcoming.len() > 0 ==> ({
            let (s2, r2) = s.pull(da).0.start_step();
            &&& r2 == Ok::<Option<OpenRequest>, RetrievalError>(
                Some(OpenRequest::spec_for(s.upcoming[0], s.config)),
            )
            &&& s2.origin == Some(s.upcoming[0])
            &&& s2.upcoming == s.upcoming.drop_first()
        }),
        s.upcoming.len() == 0 ==> s.pull(da).0.start_step().1 == Err::<Option<OpenRequest>, RetrievalError>(
            RetrievalError::UpstreamExhausted,
        ),
{
}

/// A reset drops whatever feed the stage had, open with items left or not
/// open at all, leaves the traversal stage as it was, and names the feed of
/// `base` for `cfg`'s batcher; the next pull takes that feed's first item.
pub proof fn lemma_reset_replaces_feed<T>(
    s: StageModel<T>,
    base: BlockInfo,
    cfg: SystemConfig,
    da: spec_fn(OpenRequest) -> Seq<T>,
)
    ensures
        ({
            let (s1, req) = s.reset(base, cfg);
            let items = da(req);
            &&& req == OpenRequest::spec_for(base, cfg)
            &&& s1.feed == FeedModel::<T>::Idle { awaiting: Some(req) }
            &&& s1.origin == s.origin
            &&& s1.upcoming == s.upcoming
            &&& s1.config == s.config
            &&& s1.install(items).feed == FeedModel::Active { source: req, items }
            &&& items.len() > 0 ==> s1.pull(da).1 == Ok::<T, RetrievalError>(items[0])
            &&& items.len() == 0 ==> s1.pull(da).1 == Err::<T, RetrievalError>(
                RetrievalError::IterationExhausted,
            )
        }),
{
}

/// Where the open of the feed that a pull named fails, the next pull names
/// the same feed again and does not advance the traversal stage past its
/// block.
pub proof fn lemma_failed_open_is_retried<T>(s: StageModel<T>)
    ensures
        ({
            let (s1, r1) = s.start_step();
            let (s2, r2) = s1.start_step();
            r1 is Ok && r1->Ok_0 is Some ==> s2 == s1 && r2 == r1
        }),
{
}

} // verus!
