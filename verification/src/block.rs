//! Block identifiers.

use vstd::prelude::*;

verus! {

/// The numeric id of air, the block that fills a fresh chunk.
pub const AIR_ID: u16 = 0;

/// The numeric id of stone.
pub const STONE_ID: u16 = 1;

/// Identifies the kind of block that occupies one voxel.
#[derive(Clone, Copy, Debug, PartialEq, Eq, Hash, Structural)]
pub struct BlockId(pub u16);

impl BlockId {
    /// The block with the given numeric id.
    pub fn new(id: u16) -> (r: BlockId)
        ensures
            r == BlockId(id),
    {
        BlockId(id)
    }

    /// Air.
    pub fn air() -> (r: BlockId)
        ensures
            r == BlockId(AIR_ID),
    {
        BlockId(AIR_ID)
    }

    /// Stone.
    pub fn stone() -> (r: BlockId)
        ensures
            r == BlockId(STONE_ID),
    {
        BlockId(STONE_ID)
    }
}

} // verus!
