use world_store::{BlockId, BlockPosition, Chunk, ChunkPosition, World};

fn world_with_two_chunks() -> World {
    let mut world = World::new();
    world.insert_chunk(Chunk::new(ChunkPosition::new(0, 0)));
    world.insert_chunk(Chunk::new(ChunkPosition::new(1, 0)));
    world
}

#[test]
fn writer_shuts_readers_out_until_it_is_done() {
    let world = world_with_two_chunks();
    let handle = world.chunk_handle_at(ChunkPosition::new(0, 0)).unwrap();

    let mut guard = world.chunk_at_mut(ChunkPosition::new(0, 0)).unwrap();
    guard.chunk_mut().set_block_at(1, 1, 1, BlockId::stone());
    assert!(handle.try_read().is_none());
    assert!(handle.try_write().is_none());
    guard.chunk_mut().set_block_at(2, 2, 2, BlockId::stone());
    drop(guard);

    let reader = handle.try_read().unwrap();
    assert_eq!(reader.block_at(1, 1, 1), Some(BlockId::stone()));
    assert_eq!(reader.block_at(2, 2, 2), Some(BlockId::stone()));
}

#[test]
fn readers_shut_writers_out_but_not_each_other() {
    let world = world_with_two_chunks();
    let handle = world.chunk_handle_at(ChunkPosition::new(0, 0)).unwrap();

    let guard = world.chunk_at(ChunkPosition::new(0, 0)).unwrap();
    assert!(handle.try_write().is_none());
    assert!(handle.try_read().is_some());
    drop(guard);

    assert!(handle.try_write().is_some());
}

#[test]
fn a_lock_on_one_chunk_leaves_the_others_free() {
    let world = world_with_two_chunks();
    let guard = world.chunk_at_mut(ChunkPosition::new(0, 0)).unwrap();

    assert!(world.set_block_at(BlockPosition::new(16, 0, 0), BlockId::stone()));
    assert_eq!(world.block_at(BlockPosition::new(16, 0, 0)), Some(BlockId::stone()));
    let other = world.chunk_handle_at(ChunkPosition::new(1, 0)).unwrap();
    assert!(other.try_write().is_some());
    drop(guard);
}

#[test]
fn block_access_leaves_no_lock_behind() {
    let world = world_with_two_chunks();
    let handle = world.chunk_handle_at(ChunkPosition::new(0, 0)).unwrap();

    assert!(world.set_block_at(BlockPosition::new(3, 3, 3), BlockId::stone()));
    assert!(!handle.is_locked());
    assert_eq!(world.block_at(BlockPosition::new(3, 3, 3)), Some(BlockId::stone()));
    assert!(!handle.is_locked());
}

#[test]
fn out_of_bounds_height_takes_no_lock() {
    let world = world_with_two_chunks();
    let guard = world.chunk_at_mut(ChunkPosition::new(0, 0)).unwrap();

    assert_eq!(world.block_at(BlockPosition::new(0, -1, 0)), None);
    assert!(!world.set_block_at(BlockPosition::new(0, 256, 0), BlockId::stone()));
    drop(guard);
}
