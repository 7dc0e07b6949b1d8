//! Block identifiers and headers for the master chain.

use vstd::prelude::*;

verus! {

/// The first sequence number of a chain: the genesis block. A search for the
/// earliest fetchable block never needs to look below it.
pub const GENESIS_SEQNO: u32 = 0;

/// Identifies a block within one chain: the chain coordinates plus the
/// block's position (`seqno`) in that chain. Immutable once constructed.
#[derive(Clone, Copy, Debug, PartialEq, Eq, Structural)]
pub struct BlockId {
    /// The workchain the block belongs to.
    pub workchain: i32,
    /// The shard of that workchain.
    pub shard: u64,
    /// The block's monotonically increasing position in its chain.
    pub seqno: u32,
}

/// Metadata for one block, as returned by a remote lookup: the block's
/// identifier plus chain-specific detail (the mode mask of the reply).
#[derive(Clone, Copy, Debug, PartialEq, Eq, Structural)]
pub struct BlockHeader {
    /// The block this header describes.
    pub id: BlockId,
    /// Chain-specific metadata carried alongside the identifier.
    pub mode: u32,
}

impl BlockId {
    /// Builds an identifier from its three coordinates.
    pub fn new(workchain: i32, shard: u64, seqno: u32) -> (r: BlockId)
        ensures
            r == (BlockId { workchain, shard, seqno }),
    {
        BlockId { workchain, shard, seqno }
    }
}

impl BlockHeader {
    /// Builds a header for the given block.
    pub fn new(id: BlockId, mode: u32) -> (r: BlockHeader)
        ensures
            r == (BlockHeader { id, mode }),
    {
        BlockHeader { id, mode }
    }
}

} // verus!
