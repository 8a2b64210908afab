use alloy_primitives::Address;
use vstd::prelude::*;

verus! {

/// Declares alloy_primitives::Address, the 20-byte address of a batcher, which
/// the stage carries through as an opaque value and never inspects.
#[verifier::external_type_specification]
#[verifier::external_body]
pub struct ExAddress(Address);

/// A reference to an L1 block.
#[derive(Clone, Copy, Debug, PartialEq, Eq)]
pub struct BlockInfo {
    /// The block's hash.
    pub hash: [u8; 32],
    /// The block's number.
    pub number: u64,
    /// The hash of the block's parent.
    pub parent_hash: [u8; 32],
    /// The block's timestamp.
    pub timestamp: u64,
}

/// The system configuration in effect at an L1 origin.
#[derive(Clone, Copy, Debug, PartialEq, Eq)]
pub struct SystemConfig {
    /// The address authorized to publish batch data.
    pub batcher_addr: Address,
}

/// What a data-availability provider is asked to open: the items that
/// `batcher` published in `block`.
#[derive(Clone, Copy, Debug, PartialEq, Eq)]
pub struct OpenRequest {
    pub block: BlockInfo,
    pub batcher: Address,
}

impl OpenRequest {
    /// The request for the data of `block` published by `cfg`'s batcher.
    pub open spec fn spec_for(block: BlockInfo, cfg: SystemConfig) -> OpenRequest {
        OpenRequest { block, batcher: cfg.batcher_addr }
    }

    pub fn for_block(block: BlockInfo, cfg: &SystemConfig) -> (r: OpenRequest)
        ensures
            r == Self::spec_for(block, *cfg),
    {
        OpenRequest { block, batcher: cfg.batcher_addr }
    }
}

} // verus!
