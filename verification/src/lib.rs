//! A chunk-partitioned block store for a voxel world.
//!
//! The world is a map from chunk coordinates to chunks. Every chunk sits
//! behind its own reader/writer lock and is shared by reference counting, so
//! that disjoint regions can be read and written in parallel while the map
//! itself is only changed by whoever holds the [`World`] exclusively.

pub mod block;
pub mod chunk;
pub mod chunk_map;
pub mod lock;
pub mod position;
pub mod world;

pub use block::BlockId;
pub use chunk::Chunk;
pub use chunk_map::WorldInner;
pub use lock::{read_chunk, write_chunk, ChunkHandle, ChunkReadGuard, ChunkWriteGuard};
pub use position::{BlockPosition, ChunkPosition, CHUNK_HEIGHT, CHUNK_WIDTH};
pub use world::{check_coords, chunk_relative_pos, World};
