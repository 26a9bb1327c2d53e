//! One column of the world: a fixed box of blocks that knows where it stands.

use vstd::prelude::*;
use crate::block::{BlockId, AIR_ID};
use crate::position::{ChunkPosition, CHUNK_HEIGHT, CHUNK_WIDTH};

verus! {

/// Number of blocks in a chunk.
pub const CHUNK_VOLUME: usize = 65536;

/// Whether `(x, y, z)` addresses a block inside a chunk.
pub open spec fn in_chunk(x: int, y: int, z: int) -> bool {
    &&& 0 <= x < CHUNK_WIDTH as int
    &&& 0 <= y < CHUNK_HEIGHT as int
    &&& 0 <= z < CHUNK_WIDTH as int
}

/// Where the block at `(x, y, z)` sits in a chunk's storage: layer by layer,
/// and row by row inside a layer.
spec fn block_index(x: int, y: int, z: int) -> int {
    (y * 16 + z) * 16 + x
}

/// The blocks of one chunk column, with the column's position.
#[derive(Debug)]
pub struct Chunk {
    position: ChunkPosition,
    blocks: Vec<BlockId>,
}

impl Chunk {
    #[verifier::type_invariant]
    spec fn well_formed(self) -> bool {
        self.blocks.len() == CHUNK_VOLUME
    }

    /// The blocks of the chunk by their coordinates inside it. The map is
    /// defined on exactly the coordinates that satisfy [`in_chunk`].
    pub closed spec fn view(&self) -> Map<(int, int, int), BlockId> {
        Map::new(
            |c: (int, int, int)| in_chunk(c.0, c.1, c.2),
            |c: (int, int, int)| self.blocks@[block_index(c.0, c.1, c.2)],
        )
    }

    /// The position of the chunk in the world.
    pub closed spec fn spec_position(&self) -> ChunkPosition {
        self.position
    }

    /// What a lookup at `(x, y, z)` gives: the block there, or nothing for
    /// coordinates outside the chunk.
    pub open spec fn spec_block_at(&self, x: int, y: int, z: int) -> Option<BlockId> {
        if in_chunk(x, y, z) {
            Some(self@[(x, y, z)])
        } else {
            None
        }
    }

    /// A chunk at `position` that is filled with air.
    pub fn new(position: ChunkPosition) -> (r: Chunk)
        ensures
            r.position() == position,
            forall|x: int, y: int, z: int| in_chunk(x, y, z) ==> r@[(x, y, z)] == BlockId(AIR_ID),
    {
        let blocks = vec![BlockId::air(); CHUNK_VOLUME];
        Chunk { position, blocks }
    }

    /// The position of the chunk in the world.
    #[verifier::when_used_as_spec(spec_position)]
    pub fn position(&self) -> (r: ChunkPosition)
        ensures
            r == self.position(),
    {
        self.position
    }

    /// The block at `(x, y, z)`, or `None` for coordinates outside the chunk.
    pub fn block_at(&self, x: usize, y: usize, z: usize) -> (r: Option<BlockId>)
        ensures
            r == self.spec_block_at(x as int, y as int, z as int),
    {
        proof {
            use_type_invariant(&*self);
        }
        if x < CHUNK_WIDTH && y < CHUNK_HEIGHT && z < CHUNK_WIDTH {
            Some(self.blocks[(y * 16 + z) * 16 + x])
        } else {
            None
        }
    }

    /// Puts `block` at `(x, y, z)`. Coordinates outside the chunk address no
    /// block, and the chunk stays as it is.
    pub fn set_block_at(&mut self, x: usize, y: usize, z: usize, block: BlockId)
        ensures
            final(self).position() == old(self).position(),
            final(self)@ == (if in_chunk(x as int, y as int, z as int) {
                old(self)@.insert((x as int, y as int, z as int), block)
            } else {
                old(self)@
            }),
    {
        proof {
            use_type_invariant(&*self);
        }
        if x < CHUNK_WIDTH && y < CHUNK_HEIGHT && z < CHUNK_WIDTH {
            self.blocks[(y * 16 + z) * 16 + x] = block;
        }
    }
}

} // verus!
