use std::collections::VecDeque;
use vstd::prelude::*;

verus! {

/// A per-block feed: a finite, ordered producer of the items published in
/// one block, opened by a data-availability provider.
pub trait DataIter {
    type Item;

    /// The items that the feed has yet to produce, in order.
    spec fn items(&self) -> Seq<Self::Item>;

    /// Produces the next item, or `None` once the feed is drained.
    fn next(&mut self) -> (r: Option<Self::Item>)
        ensures
            old(self).items().len() == 0 ==> {
                &&& r.is_none()
                &&& final(self).items() == old(self).items()
            },
            old(self).items().len() > 0 ==> {
                &&& r == Some(old(self).items()[0])
                &&& final(self).items() == old(self).items().drop_first()
            },
    ;
}

/// A feed over items held in memory.
pub struct VecFeed<T> {
    queue: VecDeque<T>,
}

impl<T> VecFeed<T> {
    /// An empty feed.
    pub fn new() -> (r: Self)
        ensures
            r.items() == Seq::<T>::empty(),
    {
        VecFeed { queue: VecDeque::new() }
    }

    /// Appends `item` to what the feed will produce.
    pub fn push(&mut self, item: T)
        ensures
            final(self).items() == old(self).items().push(item),
    {
        self.queue.push_back(item);
    }
}

impl<T> DataIter for VecFeed<T> {
    type Item = T;

    closed spec fn items(&self) -> Seq<T> {
        self.queue@
    }

    fn next(&mut self) -> (r: Option<T>) {
        let r = self.queue.pop_front();
        proof {
            if old(self).queue@.len() > 0 {
                assert(self.queue@ =~= old(self).queue@.drop_first());
            }
        }
        r
    }
}

} // verus!
