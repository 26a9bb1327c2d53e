//! Coordinates of blocks and chunks, and the rules that relate them.

use vstd::prelude::*;

verus! {

/// Number of block layers in a chunk: valid heights are `0 <= y < CHUNK_HEIGHT`.
pub const CHUNK_HEIGHT: usize = 256;

/// Number of blocks along each horizontal edge of a chunk.
pub const CHUNK_WIDTH: usize = 16;

/// The coordinates of a chunk column.
#[derive(Clone, Copy, Debug, PartialEq, Eq, Hash, Structural)]
pub struct ChunkPosition {
    pub x: i32,
    pub z: i32,
}

/// The coordinates of a block in world space.
#[derive(Clone, Copy, Debug, PartialEq, Eq, Hash, Structural)]
pub struct BlockPosition {
    pub x: i32,
    pub y: i32,
    pub z: i32,
}

/// The chunk coordinate that a world coordinate falls into: the quotient by
/// the chunk width, rounded towards negative infinity.
pub open spec fn chunk_coord(v: int) -> int {
    v / 16
}

/// The offset of a world coordinate inside its chunk: the remainder that
/// goes with [`chunk_coord`], always in `0..16`.
pub open spec fn chunk_offset(v: int) -> int {
    v % 16
}

/// Whether `y` is a height at which a chunk holds a block.
pub open spec fn valid_height(y: int) -> bool {
    0 <= y < CHUNK_HEIGHT as int
}

/// The chunk that owns the block at `pos`: the height is dropped, and both
/// horizontal coordinates are divided by the chunk width, rounding down.
pub open spec fn chunk_of(pos: BlockPosition) -> ChunkPosition {
    ChunkPosition { x: chunk_coord(pos.x as int) as i32, z: chunk_coord(pos.z as int) as i32 }
}

/// The position of the block at `pos` relative to the origin of its chunk.
/// The height passes through as a `usize`; a negative height comes out as
/// the large value that the conversion to `usize` gives.
pub open spec fn relative_pos(pos: BlockPosition) -> (int, int, int) {
    (chunk_offset(pos.x as int), (pos.y as usize) as int, chunk_offset(pos.z as int))
}

impl ChunkPosition {
    pub fn new(x: i32, z: i32) -> (r: ChunkPosition)
        ensures
            r == (ChunkPosition { x, z }),
    {
        ChunkPosition { x, z }
    }
}

impl BlockPosition {
    pub fn new(x: i32, y: i32, z: i32) -> (r: BlockPosition)
        ensures
            r == (BlockPosition { x, y, z }),
    {
        BlockPosition { x, y, z }
    }
}

/// Floor division of a world coordinate by the chunk width.
fn to_chunk_coord(v: i32) -> (r: i32)
    ensures
        r == chunk_coord(v as int),
{
    assert(v >> 4 == v / 16) by (bit_vector);
    v >> 4
}

impl From<BlockPosition> for ChunkPosition {
    fn from(pos: BlockPosition) -> (r: ChunkPosition) {
        ChunkPosition { x: to_chunk_coord(pos.x), z: to_chunk_coord(pos.z) }
    }
}

impl vstd::std_specs::convert::FromSpecImpl<BlockPosition> for ChunkPosition {
    open spec fn obeys_from_spec() -> bool {
        true
    }

    open spec fn from_spec(pos: BlockPosition) -> ChunkPosition {
        chunk_of(pos)
    }
}

/// A world coordinate is the origin of its chunk plus its offset inside the
/// chunk, and the offset lies in `0..16`. For a negative coordinate the chunk
/// is therefore the one towards negative infinity: `-1` lies in chunk `-1`,
/// at offset `15`.
pub proof fn lemma_coord_decomposition(v: int)
    ensures
        v == 16 * chunk_coord(v) + chunk_offset(v),
        0 <= chunk_offset(v) < 16,
        16 * chunk_coord(v) <= v < 16 * chunk_coord(v) + 16,
{
}

/// Within one chunk, different blocks have different relative positions:
/// two positions with valid heights that share their chunk and their
/// relative position are one and the same position.
pub proof fn lemma_relative_pos_injective(p: BlockPosition, q: BlockPosition)
    requires
        valid_height(p.y as int),
        valid_height(q.y as int),
        chunk_of(p) == chunk_of(q),
        relative_pos(p) == relative_pos(q),
    ensures
        p == q,
{
    lemma_coord_decomposition(p.x as int);
    lemma_coord_decomposition(q.x as int);
    lemma_coord_decomposition(p.z as int);
    lemma_coord_decomposition(q.z as int);
}

} // verus!
