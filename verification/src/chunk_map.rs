//! The hash map that holds the loaded chunks.
//!
//! The map is `ahash`'s `AHashMap`, keyed by the pair `(x, z)` of a chunk's
//! coordinates. The functions marked `external_body` call it; their
//! contracts state what its operations are taken to do, without proof, and
//! the rest of the library is proved against them.

use vstd::prelude::*;
use std::sync::Arc;
use ahash::AHashMap;
use parking_lot::RwLock;
use crate::chunk::Chunk;
use crate::lock::ChunkHandle;

verus! {

#[verifier::external_type_specification]
#[verifier::external_body]
pub struct ExRandomState(ahash::RandomState);

#[verifier::external_type_specification]
#[verifier::external_body]
#[verifier::reject_recursive_types(K)]
#[verifier::reject_recursive_types(V)]
#[verifier::reject_recursive_types(S)]
pub struct ExAHashMap<K, V, S>(ahash::AHashMap<K, V, S>);

/// The map from chunk coordinates to chunk handles.
pub type WorldInner = AHashMap<(i32, i32), ChunkHandle>;

/// The entries of a chunk map: which keys it holds, and the handle stored
/// under each.
pub uninterp spec fn chunk_map_entries(map: AHashMap<(i32, i32), Arc<RwLock<Chunk>>>) -> Map<
    (i32, i32),
    ChunkHandle,
>;

/// Whether `handles` lists the values of `entries`, each entry once, in some
/// order: `keys` names, index by index, the entry that each handle belongs to.
pub open spec fn lists_values<K>(entries: Map<K, ChunkHandle>, keys: Seq<K>, handles: Seq<ChunkHandle>) -> bool {
    &&& keys.len() == handles.len()
    &&& keys.no_duplicates()
    &&& forall|k: K| entries.contains_key(k) <==> keys.contains(k)
    &&& forall|i: int|
        0 <= i < keys.len() ==> #[trigger] handles[i] == entries[keys[i]]
}

/// `AHashMap::default`: a map without entries.
///
/// With the feature that `ahash` enables by default, the hasher's seeds come
/// from the operating system, and the call panics if it supplies none.
#[verifier::external_body]
pub(crate) fn map_new() -> (r: WorldInner)
    ensures
        chunk_map_entries(r) == (Map::<(i32, i32), ChunkHandle>::empty()),
{
    AHashMap::default()
}

/// `AHashMap::get`: the handle stored under `key`, if there is one.
#[verifier::external_body]
pub(crate) fn map_get<'a>(map: &'a WorldInner, key: (i32, i32)) -> (r: Option<&'a ChunkHandle>)
    ensures
        r == (if chunk_map_entries(*map).contains_key(key) {
            Some(&chunk_map_entries(*map)[key])
        } else {
            None
        }),
{
    map.get(&key)
}

/// `AHashMap::insert`: stores `handle` under `key`, in place of what was
/// stored there, and returns what was stored there.
#[verifier::external_body]
pub(crate) fn map_insert(map: &mut WorldInner, key: (i32, i32), handle: ChunkHandle) -> (r: Option<
    ChunkHandle,
>)
    ensures
        chunk_map_entries(*final(map)) == chunk_map_entries(*old(map)).insert(key, handle),
        r == (if chunk_map_entries(*old(map)).contains_key(key) {
            Some(chunk_map_entries(*old(map))[key])
        } else {
            None
        }),
{
    map.insert(key, handle)
}

/// `AHashMap::remove`: takes the entry under `key` out of the map, if there
/// is one, and returns the handle that was stored there.
#[verifier::external_body]
pub(crate) fn map_remove(map: &mut WorldInner, key: (i32, i32)) -> (r: Option<ChunkHandle>)
    ensures
        chunk_map_entries(*final(map)) == chunk_map_entries(*old(map)).remove(key),
        r == (if chunk_map_entries(*old(map)).contains_key(key) {
            Some(chunk_map_entries(*old(map))[key])
        } else {
            None
        }),
{
    map.remove(&key)
}

/// `HashMap::values`, which `AHashMap` has from the std map that it wraps:
/// visits the value of every entry once, in an order that the map chooses.
/// The handles are cloned into a vector as they come.
#[verifier::external_body]
pub(crate) fn map_values(map: &WorldInner) -> (r: Vec<ChunkHandle>)
    ensures
        exists|keys: Seq<(i32, i32)>| lists_values(chunk_map_entries(*map), keys, r@),
{
    map.values().cloned().collect()
}

} // verus!
