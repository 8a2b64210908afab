use crate::types::{BlockInfo, SystemConfig};
use std::collections::VecDeque;
use vstd::prelude::*;

verus! {

/// A stage that walks L1 one block at a time and reports the origin it has
/// reached and the system configuration in effect there.
pub trait Traversal {
    /// The block most recently advanced to, if any.
    spec fn origin_view(&self) -> Option<BlockInfo>;

    /// The blocks that the stage can advance to now, in order.
    spec fn upcoming(&self) -> Seq<BlockInfo>;

    /// The system configuration in effect at the origin.
    spec fn config_view(&self) -> SystemConfig;

    fn origin(&self) -> (r: Option<&BlockInfo>)
        ensures
            r.is_some() == self.origin_view().is_some(),
            r.is_some() ==> *r.unwrap() == self.origin_view().unwrap(),
    ;

    /// Advances to the next available block and returns it, or returns
    /// `None`, changing nothing, when no block is available.
    fn next_l1_block(&mut self) -> (r: Option<BlockInfo>)
        ensures
            final(self).config_view() == old(self).config_view(),
            old(self).upcoming().len() == 0 ==> {
                &&& r.is_none()
                &&& final(self).upcoming() == old(self).upcoming()
                &&& final(self).origin_view() == old(self).origin_view()
            },
            old(self).upcoming().len() > 0 ==> {
                &&& r == Some(old(self).upcoming()[0])
                &&& final(self).upcoming() == old(self).upcoming().drop_first()
                &&& final(self).origin_view() == r
            },
    ;

    fn system_config(&self) -> (r: &SystemConfig)
        ensures
            *r == self.config_view(),
    ;
}

/// A traversal stage over the blocks that the caller has fetched from L1 and
/// announced, in order, with [`L1Traversal::push_block`].
pub struct L1Traversal {
    block: Option<BlockInfo>,
    pending: VecDeque<BlockInfo>,
    /// The system configuration in effect at the origin.
    system_config: SystemConfig,
}

impl L1Traversal {
    /// A traversal that has not started, under `system_config`.
    pub fn new(system_config: SystemConfig) -> (r: Self)
        ensures
            r.origin_view().is_none(),
            r.upcoming() == Seq::<BlockInfo>::empty(),
            r.config_view() == system_config,
    {
        L1Traversal { block: None, pending: VecDeque::new(), system_config }
    }

    /// Makes `block` available to advance to, after those announced before.
    pub fn push_block(&mut self, block: BlockInfo)
        ensures
            final(self).upcoming() == old(self).upcoming().push(block),
            final(self).origin_view() == old(self).origin_view(),
            final(self).config_view() == old(self).config_view(),
    {
        self.pending.push_back(block);
    }

    /// Replaces the system configuration, as happens when L1 updates it.
    pub fn set_system_config(&mut self, cfg: SystemConfig)
        ensures
            final(self).upcoming() == old(self).upcoming(),
            final(self).origin_view() == old(self).origin_view(),
            final(self).config_view() == cfg,
    {
        self.system_config = cfg;
    }
}

impl Traversal for L1Traversal {
    closed spec fn origin_view(&self) -> Option<BlockInfo> {
        self.block
    }

    closed spec fn upcoming(&self) -> Seq<BlockInfo> {
        self.pending@
    }

    closed spec fn config_view(&self) -> SystemConfig {
        self.system_config
    }

    fn origin(&self) -> (r: Option<&BlockInfo>) {
        self.block.as_ref()
    }

    fn next_l1_block(&mut self) -> (r: Option<BlockInfo>) {
        let next = self.pending.pop_front();
        if next.is_some() {
            self.block = next;
        }
        proof {
            if old(self).pending@.len() > 0 {
                assert(self.pending@ =~= old(self).pending@.drop_first());
            }
        }
        next
    }

    fn system_config(&self) -> (r: &SystemConfig) {
        &self.system_config
    }
}

} // verus!
