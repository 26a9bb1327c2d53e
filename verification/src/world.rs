//! The world: the set of loaded chunks, and block access through it.

use vstd::prelude::*;
use std::sync::Arc;
use crate::block::BlockId;
use crate::chunk::{in_chunk, Chunk};
use crate::chunk_map::{
    chunk_map_entries, lists_values, map_get, map_insert, map_new, map_remove, map_values, WorldInner,
};
use crate::lock::{
    clone_handle, lock_first_chunk, new_lock, read_chunk, write_chunk, ChunkHandle, ChunkReadGuard,
    ChunkWriteGuard,
};
use crate::position::{
    chunk_of, lemma_relative_pos_injective, relative_pos, valid_height, BlockPosition,
    ChunkPosition, CHUNK_HEIGHT,
};

verus! {

/// What a lookup at the world position `pos` finds in `chunk`, taken to be
/// the chunk that owns `pos`: the block at the position of `pos` relative
/// to the chunk.
pub open spec fn block_in_chunk(chunk: Chunk, pos: BlockPosition) -> Option<BlockId> {
    let (x, y, z) = relative_pos(pos);
    chunk.spec_block_at(x, y, z)
}

/// Whether `after` is `before` with `block` written at the world position
/// `pos`: the chunk stands where it stood, and its blocks are those of
/// `before` but for `block` at the position of `pos` relative to the chunk.
pub open spec fn block_written(before: Chunk, after: Chunk, pos: BlockPosition, block: BlockId) -> bool {
    &&& after.position() == before.position()
    &&& after@ == before@.insert(relative_pos(pos), block)
}

/// Stores all the chunks of a world, and with them its blocks.
///
/// Every chunk sits behind a lock of its own and is shared by reference
/// counting, so several threads can work on different chunks at once through
/// a shared reference to the world. Only loading and unloading chunks takes
/// the world by mutable reference.
pub struct World {
    chunks: WorldInner,
}

impl World {
    /// The loaded chunks: the handle of each, by the chunk's position.
    ///
    /// What a chunk holds is no part of this value: it can change behind the
    /// chunk's lock while the world stays the same.
    pub closed spec fn view(&self) -> Map<ChunkPosition, ChunkHandle> {
        Map::new(
            |pos: ChunkPosition| chunk_map_entries(self.chunks).contains_key((pos.x, pos.z)),
            |pos: ChunkPosition| chunk_map_entries(self.chunks)[(pos.x, pos.z)],
        )
    }

    /// Whether every chunk is stored under its own position, as far as the
    /// world decides it: each stored lock was made with a chunk of the
    /// position that the lock is stored under. `new` gives such a world, and
    /// `insert_chunk` and `remove_chunk` keep it one.
    pub open spec fn well_formed(&self) -> bool {
        forall|pos: ChunkPosition| #[trigger]
            self@.contains_key(pos) ==> lock_first_chunk(*self@[pos]).position() == pos
    }

    /// Creates a new, empty world.
    pub fn new() -> (world: World)
        ensures
            world@ == Map::<ChunkPosition, ChunkHandle>::empty(),
            world.well_formed(),
    {
        World { chunks: map_new() }
    }

    /// Locks the chunk at `pos` for reading, or returns `None` if no chunk
    /// is loaded there. Blocks while a writer holds the chunk.
    pub fn chunk_at(&self, pos: ChunkPosition) -> (r: Option<ChunkReadGuard<'_>>)
        ensures
            r is Some <==> self@.contains_key(pos),
            r matches Some(guard) ==> guard.lock() == *self@[pos],
    {
        match map_get(&self.chunks, (pos.x, pos.z)) {
            Some(handle) => Some(read_chunk(handle)),
            None => None,
        }
    }

    /// Locks the chunk at `pos` for writing, or returns `None` if no chunk
    /// is loaded there. Blocks while anyone else holds the chunk.
    pub fn chunk_at_mut(&self, pos: ChunkPosition) -> (r: Option<ChunkWriteGuard<'_>>)
        ensures
            r is Some <==> self@.contains_key(pos),
            r matches Some(guard) ==> guard.lock() == *self@[pos],
    {
        match map_get(&self.chunks, (pos.x, pos.z)) {
            Some(handle) => Some(write_chunk(handle)),
            None => None,
        }
    }

    /// A handle of the chunk at `pos`, or `None` if no chunk is loaded there.
    /// The handle takes no lock, and stays usable when the chunk is removed
    /// from the world.
    pub fn chunk_handle_at(&self, pos: ChunkPosition) -> (r: Option<ChunkHandle>)
        ensures
            r == (if self@.contains_key(pos) {
                Some(self@[pos])
            } else {
                None
            }),
    {
        match map_get(&self.chunks, (pos.x, pos.z)) {
            Some(handle) => Some(clone_handle(handle)),
            None => None,
        }
    }

    /// The block at `pos`. Returns `None` if the height of `pos` is out of
    /// bounds or the chunk that owns `pos` is not loaded; a height out of
    /// bounds takes no lock.
    ///
    /// Otherwise the result is read under a read guard on the lock that is
    /// stored for the chunk that owns `pos`: it is what a lookup at `pos`
    /// finds in the chunk as that guard sees it.
    pub fn block_at(&self, pos: BlockPosition) -> (r: Option<BlockId>)
        ensures
            r is Some <==> valid_height(pos.y as int) && self@.contains_key(chunk_of(pos)),
            valid_height(pos.y as int) && self@.contains_key(chunk_of(pos)) ==> exists|
                guard: ChunkReadGuard<'_>,
            |
                guard.lock() == *self@[chunk_of(pos)] && r == block_in_chunk(guard@, pos),
    {
        check_coords(pos)?;
        let (x, y, z) = chunk_relative_pos(pos);
        match self.chunk_at(ChunkPosition::from(pos)) {
            Some(guard) => guard.chunk().block_at(x, y, z),
            None => None,
        }
    }

    /// Sets the block at `pos`. Returns `true` if the block was set, and
    /// `false` if the height of `pos` is out of bounds or the chunk that owns
    /// `pos` is not loaded; a height out of bounds takes no lock.
    ///
    /// The block is set under a write guard on the lock that is stored for
    /// the chunk that owns `pos`: the chunk that the guard leaves is the
    /// chunk that it found, with `block` written at `pos`.
    pub fn set_block_at(&self, pos: BlockPosition, block: BlockId) -> (r: bool)
        ensures
            r <==> valid_height(pos.y as int) && self@.contains_key(chunk_of(pos)),
            r ==> exists|before: ChunkWriteGuard<'_>, after: ChunkWriteGuard<'_>|
                {
                    &&& before.lock() == *self@[chunk_of(pos)]
                    &&& after.lock() == before.lock()
                    &&& block_written(before@, after@, pos, block)
                },
    {
        if check_coords(pos).is_none() {
            return false;
        }
        let (x, y, z) = chunk_relative_pos(pos);
        match self.chunk_at_mut(ChunkPosition::from(pos)) {
            Some(mut guard) => {
                let ghost before = guard;
                guard.chunk_mut().set_block_at(x, y, z, block);
                proof {
                    assert(guard.lock() == before.lock());
                    assert(block_written(before@, guard@, pos, block));
                }
                true
            },
            None => false,
        }
    }

    /// The handles of all loaded chunks, each once, in no particular order.
    pub fn iter_chunks(&self) -> (r: Vec<ChunkHandle>)
        ensures
            exists|keys: Seq<ChunkPosition>| lists_values(self@, keys, r@),
            self@.dom().finite(),
            r@.len() == self@.len(),
    {
        let handles = map_values(&self.chunks);
        proof {
            let entries = chunk_map_entries(self.chunks);
            let raw = choose|raw: Seq<(i32, i32)>| lists_values(entries, raw, handles@);
            let keys = Seq::new(raw.len(), |i: int| ChunkPosition { x: raw[i].0, z: raw[i].1 });
            assert forall|pos: ChunkPosition| self@.contains_key(pos) <==> keys.contains(
                pos,
            ) by {
                if self@.contains_key(pos) {
                    assert(raw.contains((pos.x, pos.z)));
                    let i = choose|i: int| 0 <= i < raw.len() && raw[i] == (pos.x, pos.z);
                    assert(keys[i] == pos);
                }
                if keys.contains(pos) {
                    let i = choose|i: int| 0 <= i < keys.len() && keys[i] == pos;
                    assert(raw[i] == (pos.x, pos.z));
                    assert(raw.contains((pos.x, pos.z)));
                }
            }
            assert forall|i: int| 0 <= i < keys.len() implies #[trigger] handles@[i]
                == self@[keys[i]] by {
                assert(raw.contains(raw[i]));
            }
            assert forall|i: int, j: int|
                0 <= i < keys.len() && 0 <= j < keys.len() && i != j implies keys[i]
                != keys[j] by {
                assert(raw[i] != raw[j]);
            }
            assert(lists_values(self@, keys, handles@));
            lemma_listing_len(self@, keys, handles@);
        }
        handles
    }

    /// Loads `chunk` at its own position, in place of the chunk that was
    /// loaded there, if any: the handle stored there afterwards is that of a
    /// lock made with `chunk`. The other chunks keep their handles.
    pub fn insert_chunk(&mut self, chunk: Chunk)
        ensures
            final(self)@ == old(self)@.insert(chunk.position(), final(self)@[chunk.position()]),
            lock_first_chunk(*final(self)@[chunk.position()]) == chunk,
            old(self).well_formed() ==> final(self).well_formed(),
    {
        let pos = chunk.position();
        let handle = Arc::new(new_lock(chunk));
        map_insert(&mut self.chunks, (pos.x, pos.z), handle);
    }

    /// Unloads the chunk at `pos`, and returns whether there was one.
    /// Handles of the chunk that are held elsewhere stay usable.
    pub fn remove_chunk(&mut self, pos: ChunkPosition) -> (r: bool)
        ensures
            r == old(self)@.contains_key(pos),
            final(self)@ == old(self)@.remove(pos),
            old(self).well_formed() ==> final(self).well_formed(),
    {
        map_remove(&mut self.chunks, (pos.x, pos.z)).is_some()
    }
}

impl Default for World {
    fn default() -> (world: World)
        ensures
            world@ == Map::<ChunkPosition, ChunkHandle>::empty(),
            world.well_formed(),
    {
        World::new()
    }
}

/// Checks the height of a block position: `Some` for a height at which
/// chunks hold blocks, `None` for any other.
pub fn check_coords(pos: BlockPosition) -> (r: Option<()>)
    ensures
        r is Some <==> valid_height(pos.y as int),
{
    if pos.y >= 0 && pos.y < CHUNK_HEIGHT as i32 {
        Some(())
    } else {
        None
    }
}

/// The position of a block relative to its chunk: the low four bits of `x`
/// and of `z`, and `y` as it is.
///
/// For a valid height the result addresses a block of the chunk. A height
/// that is not valid never comes out as one that is.
pub fn chunk_relative_pos(block_pos: BlockPosition) -> (r: (usize, usize, usize))
    ensures
        (r.0 as int, r.1 as int, r.2 as int) == relative_pos(block_pos),
        valid_height(block_pos.y as int) <==> in_chunk(r.0 as int, r.1 as int, r.2 as int),
        valid_height(block_pos.y as int) ==> r.1 == block_pos.y,
{
    let x = block_pos.x;
    let y = block_pos.y;
    let z = block_pos.z;
    assert((x as usize) & 0xf == x % 16) by (bit_vector);
    assert((z as usize) & 0xf == z % 16) by (bit_vector);
    assert(y < 0 ==> (y as usize) >= 256) by (bit_vector);
    (
        #[verifier::truncate]
        (x as usize) & 0xf,
        #[verifier::truncate]
        (y as usize),
        #[verifier::truncate]
        (z as usize) & 0xf,
    )
}

/// A listing of the values of a map is as long as the map has entries, and
/// a map that has a listing is finite.
pub proof fn lemma_listing_len<K>(entries: Map<K, ChunkHandle>, keys: Seq<K>, handles: Seq<ChunkHandle>)
    requires
        lists_values(entries, keys, handles),
    ensures
        entries.dom().finite(),
        handles.len() == entries.len(),
{
    keys.unique_seq_to_set();
    vstd::seq_lib::seq_to_set_is_finite(keys);
    assert(keys.to_set() =~= entries.dom());
}

/// Read your write. `set_block_at` puts the block at the relative position
/// of `pos` into the chunk that it locks, and `block_at` looks the same
/// relative position up in the chunk that it locks. So, for a valid height,
/// a lookup in the chunk that the write left finds the block that was
/// written.
pub proof fn lemma_read_your_write(before: Chunk, after: Chunk, pos: BlockPosition, block: BlockId)
    requires
        valid_height(pos.y as int),
        block_written(before, after, pos, block),
    ensures
        block_in_chunk(after, pos) == Some(block),
{
}

/// A write at one position leaves the blocks at all other positions of the
/// same chunk as they were: what a lookup finds at `other` is the same
/// before and after a block is written at `pos`.
pub proof fn lemma_write_keeps_other_blocks(
    before: Chunk,
    after: Chunk,
    pos: BlockPosition,
    block: BlockId,
    other: BlockPosition,
)
    requires
        valid_height(pos.y as int),
        valid_height(other.y as int),
        chunk_of(other) == chunk_of(pos),
        other != pos,
        block_written(before, after, pos, block),
    ensures
        block_in_chunk(after, other) == block_in_chunk(before, other),
{
    if relative_pos(other) == relative_pos(pos) {
        lemma_relative_pos_injective(other, pos);
    }
}

/// A chunk that was just inserted is loaded: in the world that
/// `insert_chunk` leaves, `chunk_at` at the chunk's own position gives a
/// guard.
pub proof fn lemma_inserted_chunk_is_loaded(before: World, after: World, chunk: Chunk)
    requires
        after@ == before@.insert(chunk.position(), after@[chunk.position()]),
    ensures
        after@.contains_key(chunk.position()),
{
}

/// Inserting a chunk neither loads nor unloads a chunk at any other
/// position, and the chunks there keep their handles.
pub proof fn lemma_insert_keeps_other_chunks(
    before: World,
    after: World,
    chunk: Chunk,
    other: ChunkPosition,
)
    requires
        after@ == before@.insert(chunk.position(), after@[chunk.position()]),
        other != chunk.position(),
    ensures
        after@.contains_key(other) == before@.contains_key(other),
        before@.contains_key(other) ==> after@[other] == before@[other],
{
}

/// A chunk that was removed is no longer loaded: in the world that
/// `remove_chunk` leaves, `chunk_at` at that position gives nothing, and a
/// second removal there returns `false`. The chunks at all other positions
/// stay loaded, with their handles.
pub proof fn lemma_removed_chunk_is_unloaded(before: World, after: World, pos: ChunkPosition)
    requires
        after@ == before@.remove(pos),
    ensures
        !after@.contains_key(pos),
        forall|other: ChunkPosition|
            other != pos ==> after@.contains_key(other) == before@.contains_key(other),
        forall|other: ChunkPosition|
            other != pos && before@.contains_key(other) ==> after@[other] == before@[other],
{
}

} // verus!
