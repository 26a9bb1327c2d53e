//! The reader/writer lock that every chunk sits behind.
//!
//! The lock is `parking_lot`'s. The functions marked `external_body` call
//! it; their contracts state what its operations are taken to do, without
//! proof, and the rest of the library is proved against them.

use vstd::prelude::*;
use std::sync::Arc;
use parking_lot::{RwLock, RwLockReadGuard, RwLockWriteGuard};
use crate::chunk::Chunk;

verus! {

#[verifier::external_type_specification]
#[verifier::external_body]
pub struct ExRawRwLock<const RECURSIVE: bool>(parking_lot::RawRwLock<RECURSIVE>);

#[verifier::external_type_specification]
#[verifier::external_body]
#[verifier::reject_recursive_types(R)]
#[verifier::reject_recursive_types(T)]
pub struct ExRwLock<R, T: ?Sized>(parking_lot::lock_api::RwLock<R, T>);

/// A shared, lockable chunk. Clones of a handle refer to one and the same
/// lock, and the chunk lives as long as any of them does.
pub type ChunkHandle = Arc<RwLock<Chunk>>;

/// Shared read access to a chunk, held until the guard is dropped.
///
/// Wraps `parking_lot::RwLockReadGuard<Chunk>`, whose bound by a trait of
/// `lock_api` keeps it from being declared to the verifier directly.
#[verifier::external_body]
pub struct ChunkReadGuard<'a> {
    guard: RwLockReadGuard<'a, Chunk>,
}

/// Exclusive write access to a chunk, held until the guard is dropped.
///
/// Wraps `parking_lot::RwLockWriteGuard<Chunk>`, whose bound by a trait of
/// `lock_api` keeps it from being declared to the verifier directly.
#[verifier::external_body]
pub struct ChunkWriteGuard<'a> {
    guard: RwLockWriteGuard<'a, Chunk>,
}

/// The chunk that a lock was made with: the argument of the `RwLock::new`
/// that made it. What the lock holds later is whatever its writers left.
pub uninterp spec fn lock_first_chunk(lock: RwLock<Chunk>) -> Chunk;

/// The lock that a read guard holds: what `RwLockReadGuard::rwlock` gives.
pub uninterp spec fn read_guard_lock(guard: ChunkReadGuard<'_>) -> RwLock<Chunk>;

/// The chunk that a read guard gives access to. No writer can hold the lock
/// while the guard lives, so the chunk is one value for the guard's lifetime.
pub uninterp spec fn read_guard_chunk(guard: ChunkReadGuard<'_>) -> Chunk;

/// The lock that a write guard holds: what `RwLockWriteGuard::rwlock` gives.
pub uninterp spec fn write_guard_lock(guard: ChunkWriteGuard<'_>) -> RwLock<Chunk>;

/// The chunk that a write guard gives access to. Nobody else can hold the
/// lock while the guard lives, so the chunk changes only through the guard.
pub uninterp spec fn write_guard_chunk(guard: ChunkWriteGuard<'_>) -> Chunk;

/// `RwLock::new`: a new, unlocked lock that is made with `chunk` in it.
#[verifier::external_body]
pub(crate) fn new_lock(chunk: Chunk) -> (lock: RwLock<Chunk>)
    ensures
        lock_first_chunk(lock) == chunk,
{
    RwLock::new(chunk)
}

/// `Arc::clone`: another handle to the same lock.
#[verifier::external_body]
pub(crate) fn clone_handle(handle: &ChunkHandle) -> (r: ChunkHandle)
    ensures
        r == *handle,
{
    Arc::clone(handle)
}

/// `RwLock::read`: blocks the calling thread until no writer holds `lock`,
/// then returns a guard on that very lock. What the guard reads is whatever
/// the last writer left.
///
/// The call does not return while a writer holds the lock, and may not
/// return if the calling thread already holds a guard on it while a writer
/// waits: not to nest guards on one lock is up to the caller.
#[verifier::external_body]
fn lock_read<'a>(lock: &'a RwLock<Chunk>) -> (guard: ChunkReadGuard<'a>)
    ensures
        read_guard_lock(guard) == *lock,
{
    ChunkReadGuard { guard: lock.read() }
}

/// `RwLock::write`: blocks the calling thread until nobody else holds `lock`,
/// then returns a guard on that very lock. What the guard finds is whatever
/// the last writer left.
///
/// The call does not return while anyone holds the lock, the calling thread
/// included: not to nest guards on one lock is up to the caller.
#[verifier::external_body]
fn lock_write<'a>(lock: &'a RwLock<Chunk>) -> (guard: ChunkWriteGuard<'a>)
    ensures
        write_guard_lock(guard) == *lock,
{
    ChunkWriteGuard { guard: lock.write() }
}

/// `Deref` of `RwLockReadGuard`: the chunk behind the guard.
#[verifier::external_body]
fn read_guard_target<'a>(guard: &'a ChunkReadGuard<'_>) -> (chunk: &'a Chunk)
    ensures
        *chunk == read_guard_chunk(*guard),
{
    &*guard.guard
}

/// `Deref` of `RwLockWriteGuard`: the chunk behind the guard.
#[verifier::external_body]
fn write_guard_target<'a>(guard: &'a ChunkWriteGuard<'_>) -> (chunk: &'a Chunk)
    ensures
        *chunk == write_guard_chunk(*guard),
{
    &*guard.guard
}

/// `DerefMut` of `RwLockWriteGuard`: the chunk behind the guard, for
/// writing. What the borrower leaves in it is the guard's chunk afterwards.
#[verifier::external_body]
fn write_guard_target_mut<'a>(guard: &'a mut ChunkWriteGuard<'_>) -> (chunk: &'a mut Chunk)
    ensures
        *chunk == write_guard_chunk(*old(guard)),
        write_guard_chunk(*final(guard)) == *final(chunk),
        write_guard_lock(*final(guard)) == write_guard_lock(*old(guard)),
{
    &mut *guard.guard
}

impl<'a> ChunkReadGuard<'a> {
    /// The chunk as it stands while the guard is held.
    pub open spec fn view(&self) -> Chunk {
        read_guard_chunk(*self)
    }

    /// The lock that the guard holds.
    pub open spec fn lock(&self) -> RwLock<Chunk> {
        read_guard_lock(*self)
    }

    /// The chunk behind the guard.
    pub fn chunk(&self) -> (chunk: &Chunk)
        ensures
            *chunk == self@,
    {
        read_guard_target(self)
    }
}

impl<'a> ChunkWriteGuard<'a> {
    /// The chunk as it stands now.
    pub open spec fn view(&self) -> Chunk {
        write_guard_chunk(*self)
    }

    /// The lock that the guard holds.
    pub open spec fn lock(&self) -> RwLock<Chunk> {
        write_guard_lock(*self)
    }

    /// The chunk behind the guard.
    pub fn chunk(&self) -> (chunk: &Chunk)
        ensures
            *chunk == self@,
    {
        write_guard_target(self)
    }

    /// The chunk behind the guard, for writing.
    pub fn chunk_mut(&mut self) -> (chunk: &mut Chunk)
        ensures
            *chunk == old(self)@,
            final(self)@ == *final(chunk),
            final(self).lock() == old(self).lock(),
    {
        write_guard_target_mut(self)
    }
}

/// Locks the chunk behind `handle` for reading. Blocks while a writer holds
/// the chunk. A handle can be locked whether or not a world still holds
/// the chunk.
pub fn read_chunk(handle: &ChunkHandle) -> (guard: ChunkReadGuard<'_>)
    ensures
        guard.lock() == **handle,
{
    lock_read(handle)
}

/// Locks the chunk behind `handle` for writing. Blocks while anyone else
/// holds the chunk. A handle can be locked whether or not a world still
/// holds the chunk.
pub fn write_chunk(handle: &ChunkHandle) -> (guard: ChunkWriteGuard<'_>)
    ensures
        guard.lock() == **handle,
{
    lock_write(handle)
}

impl<'a> std::ops::Deref for ChunkReadGuard<'a> {
    type Target = Chunk;

    fn deref(&self) -> (chunk: &Chunk)
        ensures
            *chunk == self@,
    {
        self.chunk()
    }
}

impl<'a> std::ops::Deref for ChunkWriteGuard<'a> {
    type Target = Chunk;

    fn deref(&self) -> (chunk: &Chunk)
        ensures
            *chunk == self@,
    {
        self.chunk()
    }
}

} // verus!
