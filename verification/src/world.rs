//! The loaded world: which chunk sits at which chunk coordinate, and the
//! resolution of a chunk's six neighbours.

use vstd::prelude::*;

use bevy::math::IVec3;
use bevy::platform::collections::HashMap;

use crate::collections::MAX_TABLE_CAPACITY;
use crate::chunk::{Chunk, ChunkState};
use crate::coords::{Int3, CHUNK_SIZE};
use crate::meshers::{NeighborStates, Neighbors, Neighbour};

verus! {

/// Handle of the engine entity that owns a chunk: the entity's 64 bits.
pub type EntityId = u64;

/// The engine's hash map from chunk coordinate to owning entity.
pub type CoordTable = HashMap<IVec3, EntityId>;

/// The engine's hash map from owning entity to chunk.
pub type ChunkTable = HashMap<EntityId, Chunk>;

/// What a coordinate table holds: the entity stored under each chunk
/// coordinate, a coordinate being named by its three components.
pub uninterp spec fn coord_entries(table: CoordTable) -> Map<Int3, EntityId>;

/// What a chunk table holds: the state of the chunk stored under each entity.
pub uninterp spec fn chunk_entries(table: ChunkTable) -> Map<EntityId, ChunkState>;

/// Calls `HashMap::with_capacity`. The new map holds no entry. The call
/// panics when the table for `capacity` entries outgrows the address
/// space, so only capacities far below that are admitted.
#[verifier::external_body]
fn coords_with_capacity(capacity: usize) -> (table: CoordTable)
    requires
        capacity <= MAX_TABLE_CAPACITY,
    ensures
        coord_entries(table) == (Map::<Int3, EntityId>::empty()),
{
    HashMap::with_capacity(capacity)
}

/// Calls `HashMap::insert` with the key `IVec3::new(coord.x, coord.y, coord.z)`.
/// Afterwards the map holds `entity` under `coord` and is otherwise
/// unchanged; the result is the entity that `coord` had before.
#[verifier::external_body]
fn coords_insert(table: &mut CoordTable, coord: Int3, entity: EntityId) -> (previous: Option<EntityId>)
    ensures
        coord_entries(*final(table)) == coord_entries(*old(table)).insert(coord, entity),
        previous == (if coord_entries(*old(table)).contains_key(coord) {
            Some(coord_entries(*old(table))[coord])
        } else {
            None
        }),
{
    table.insert(IVec3::new(coord.x, coord.y, coord.z), entity)
}

/// Calls `HashMap::get` with the key `IVec3::new(coord.x, coord.y, coord.z)`
/// and copies the value out. The result is the entity stored under
/// `coord`, or `None` when the map has none.
#[verifier::external_body]
fn coords_get(table: &CoordTable, coord: Int3) -> (found: Option<EntityId>)
    ensures
        found == (if coord_entries(*table).contains_key(coord) {
            Some(coord_entries(*table)[coord])
        } else {
            None
        }),
{
    table.get(&IVec3::new(coord.x, coord.y, coord.z)).copied()
}

/// Calls `HashMap::with_capacity`. The new map holds no entry. The call
/// panics when the table for `capacity` entries outgrows the address
/// space, so only capacities far below that are admitted.
#[verifier::external_body]
fn chunks_with_capacity(capacity: usize) -> (table: ChunkTable)
    requires
        capacity <= MAX_TABLE_CAPACITY,
    ensures
        chunk_entries(table) == (Map::<EntityId, ChunkState>::empty()),
{
    HashMap::with_capacity(capacity)
}

/// Calls `HashMap::get`. The result borrows the chunk stored under
/// `entity`, or is `None` when the map has none.
#[verifier::external_body]
fn chunks_get<'a>(table: &'a ChunkTable, entity: EntityId) -> (found: Option<&'a Chunk>)
    ensures
        found is Some <==> chunk_entries(*table).contains_key(entity),
        found matches Some(chunk) ==> chunk@ == chunk_entries(*table)[entity],
{
    table.get(&entity)
}

/// Calls `HashMap::insert`. Afterwards the map holds `chunk` under
/// `entity` and is otherwise unchanged; the result is the chunk that
/// `entity` had before.
#[verifier::external_body]
fn chunks_insert(table: &mut ChunkTable, entity: EntityId, chunk: Chunk) -> (previous: Option<Chunk>)
    ensures
        chunk_entries(*final(table)) == chunk_entries(*old(table)).insert(entity, chunk@),
        previous is Some <==> chunk_entries(*old(table)).contains_key(entity),
        previous matches Some(before) ==> before@ == chunk_entries(*old(table))[entity],
{
    table.insert(entity, chunk)
}

/// Calls `HashMap::remove`. Afterwards the map holds nothing under
/// `entity` and is otherwise unchanged; the result is the chunk that
/// `entity` had before.
#[verifier::external_body]
fn chunks_remove(table: &mut ChunkTable, entity: EntityId) -> (removed: Option<Chunk>)
    ensures
        chunk_entries(*final(table)) == chunk_entries(*old(table)).remove(entity),
        removed is Some <==> chunk_entries(*old(table)).contains_key(entity),
        removed matches Some(before) ==> before@ == chunk_entries(*old(table))[entity],
{
    table.remove(&entity)
}

/// The spatial index: the entity that owns the chunk at each chunk coordinate.
pub struct ChunkEntityMap {
    chunks: CoordTable,
}

impl View for ChunkEntityMap {
    type V = Map<Int3, EntityId>;

    closed spec fn view(&self) -> Map<Int3, EntityId> {
        coord_entries(self.chunks)
    }
}

impl Default for ChunkEntityMap {
    /// An index without entries.
    fn default() -> (map: ChunkEntityMap)
        ensures
            map@ == (Map::<Int3, EntityId>::empty()),
    {
        ChunkEntityMap { chunks: coords_with_capacity(128) }
    }
}

impl ChunkEntityMap {
    /// Records that `entity` owns the chunk at `chunk_coord`. Returns
    /// whether the coordinate already had an owner, which is now replaced.
    pub fn insert(&mut self, chunk_coord: Int3, entity: EntityId) -> (replaced: bool)
        ensures
            final(self)@ == old(self)@.insert(chunk_coord, entity),
            replaced == old(self)@.contains_key(chunk_coord),
    {
        coords_insert(&mut self.chunks, chunk_coord, entity).is_some()
    }

    /// The entity that owns the chunk at `chunk_coord`, if one is loaded there.
    pub fn get(&self, chunk_coord: &Int3) -> (entity: Option<EntityId>)
        ensures
            entity == (if self@.contains_key(*chunk_coord) {
                Some(self@[*chunk_coord])
            } else {
                None
            }),
    {
        coords_get(&self.chunks, *chunk_coord)
    }
}

/// The chunks of the loaded world, each under the entity that owns it.
pub struct Chunks(ChunkTable);

impl View for Chunks {
    type V = Map<EntityId, ChunkState>;

    closed spec fn view(&self) -> Map<EntityId, ChunkState> {
        chunk_entries(self.0)
    }
}

impl Default for Chunks {
    /// A store without chunks.
    fn default() -> (chunks: Chunks)
        ensures
            chunks@ == (Map::<EntityId, ChunkState>::empty()),
            chunks.wf(),
    {
        Chunks(chunks_with_capacity(256))
    }
}

impl Chunks {
    /// Every stored chunk holds exactly one voxel per cell.
    pub open spec fn wf(&self) -> bool {
        forall|entity: EntityId| #[trigger] self@.contains_key(entity) ==> self@[entity].wf()
    }

    /// The chunk owned by `entity`, if there is one.
    pub fn get(&self, entity: EntityId) -> (chunk: Option<&Chunk>)
        requires
            self.wf(),
        ensures
            chunk is Some <==> self@.contains_key(entity),
            chunk matches Some(c) ==> c@ == self@[entity] && c.wf(),
    {
        let chunk = chunks_get(&self.0, entity);
        assert(chunk is Some ==> self@.contains_key(entity));
        chunk
    }

    /// Stores `chunk` under `entity` and returns the chunk that was there before.
    pub fn insert(&mut self, entity: EntityId, chunk: Chunk) -> (previous: Option<Chunk>)
        requires
            old(self).wf(),
            chunk.wf(),
        ensures
            final(self).wf(),
            final(self)@ == old(self)@.insert(entity, chunk@),
            previous is Some <==> old(self)@.contains_key(entity),
            previous matches Some(p) ==> p@ == old(self)@[entity] && p.wf(),
    {
        let previous = chunks_insert(&mut self.0, entity, chunk);
        assert(previous is Some ==> old(self)@.contains_key(entity));
        assert forall|other: EntityId| #[trigger] self@.contains_key(other) implies self@[other].wf() by {
            if other != entity {
                assert(old(self)@.contains_key(other));
            }
        }
        previous
    }

    /// Takes the chunk owned by `entity` out of the store.
    pub fn remove(&mut self, entity: EntityId) -> (removed: Option<Chunk>)
        requires
            old(self).wf(),
        ensures
            final(self).wf(),
            final(self)@ == old(self)@.remove(entity),
            removed is Some <==> old(self)@.contains_key(entity),
            removed matches Some(c) ==> c@ == old(self)@[entity] && c.wf(),
    {
        let removed = chunks_remove(&mut self.0, entity);
        assert(removed is Some ==> old(self)@.contains_key(entity));
        assert forall|other: EntityId| #[trigger] self@.contains_key(other) implies self@[other].wf() by {
            assert(old(self)@.contains_key(other));
        }
        removed
    }
}

/// The chunk loaded at `coord`: the chunk of the entity that the index
/// names for the coordinate. `None` where the index has no entry or its
/// entity owns no chunk.
pub open spec fn chunk_at(
    index: Map<Int3, EntityId>,
    chunks: Map<EntityId, ChunkState>,
    coord: Int3,
) -> Option<ChunkState> {
    if index.contains_key(coord) && chunks.contains_key(index[coord]) {
        Some(chunks[index[coord]])
    } else {
        None
    }
}

/// Whether the index has no dangling entry: every entity it names owns a
/// chunk of the store.
pub open spec fn index_consistent(index: Map<Int3, EntityId>, chunks: Map<EntityId, ChunkState>) -> bool {
    forall|coord: Int3| #[trigger] index.contains_key(coord) ==> chunks.contains_key(index[coord])
}

/// Under a consistent index a chunk is loaded at exactly the coordinates
/// the index knows.
pub proof fn lemma_indexed_chunks_are_loaded(
    index: Map<Int3, EntityId>,
    chunks: Map<EntityId, ChunkState>,
    coord: Int3,
)
    requires
        index_consistent(index, chunks),
    ensures
        chunk_at(index, chunks, coord) is Some <==> index.contains_key(coord),
{
}

/// Registering a chunk keeps the index consistent: once the store holds a
/// chunk under `entity`, the index may name `entity` for a coordinate.
pub proof fn lemma_registration_keeps_index_consistent(
    index: Map<Int3, EntityId>,
    chunks: Map<EntityId, ChunkState>,
    coord: Int3,
    entity: EntityId,
    chunk: ChunkState,
)
    requires
        index_consistent(index, chunks),
    ensures
        index_consistent(index.insert(coord, entity), chunks.insert(entity, chunk)),
{
    let after_index = index.insert(coord, entity);
    let after_chunks = chunks.insert(entity, chunk);
    assert forall|c: Int3| #[trigger] after_index.contains_key(c) implies after_chunks.contains_key(after_index[c]) by {
        if c != coord {
            assert(index.contains_key(c));
        }
    }
}

/// The chunk one step from `coord` in direction `direction`. Beyond the
/// representable coordinates nothing is loaded.
pub open spec fn neighbour_at(
    index: Map<Int3, EntityId>,
    chunks: Map<EntityId, ChunkState>,
    coord: Int3,
    direction: Neighbour,
) -> Option<ChunkState> {
    match coord.spec_checked_add(direction.spec_normal()) {
        Some(beyond) => chunk_at(index, chunks, beyond),
        None => None,
    }
}

/// The six chunks around `coord`, in the order +X, -X, +Y, -Y, +Z, -Z.
pub open spec fn neighbour_states(
    index: Map<Int3, EntityId>,
    chunks: Map<EntityId, ChunkState>,
    coord: Int3,
) -> NeighborStates {
    Seq::new(6, |i: int| neighbour_at(index, chunks, coord, Neighbour::from_index(i)))
}

/// The chunk loaded at `coord`, if any.
pub fn loaded_chunk<'a>(coord: Int3, map: &ChunkEntityMap, chunks: &'a Chunks) -> (chunk: Option<&'a Chunk>)
    requires
        chunks.wf(),
    ensures
        chunk matches Some(c) ==> chunk_at(map@, chunks@, coord) == Some(c@) && c.wf(),
        chunk is None ==> chunk_at(map@, chunks@, coord) is None,
{
    match map.get(&coord) {
        Some(entity) => chunks.get(entity),
        None => None,
    }
}

/// The chunk one step from `coord` in direction `direction`, if any.
pub fn neighbour_chunk<'a>(
    coord: &Int3,
    direction: Neighbour,
    map: &ChunkEntityMap,
    chunks: &'a Chunks,
) -> (chunk: Option<&'a Chunk>)
    requires
        chunks.wf(),
    ensures
        chunk matches Some(c) ==> neighbour_at(map@, chunks@, *coord, direction) == Some(c@) && c.wf(),
        chunk is None ==> neighbour_at(map@, chunks@, *coord, direction) is None,
{
    match coord.checked_add(direction.normal()) {
        Some(beyond) => loaded_chunk(beyond, map, chunks),
        None => None,
    }
}

/// Resolves the six face-adjacent chunks of the chunk at `coord` through
/// the index. A direction without a loaded chunk is `None`.
pub fn get_neighbours<'a>(coord: &Int3, map: &ChunkEntityMap, chunks: &'a Chunks) -> (neighbours: Neighbors<'a>)
    requires
        chunks.wf(),
    ensures
        neighbours@ == neighbour_states(map@, chunks@, *coord),
        neighbours.wf(),
{
    let neighbours = Neighbors::from_array(
        [
            neighbour_chunk(coord, Neighbour::X, map, chunks),
            neighbour_chunk(coord, Neighbour::NegX, map, chunks),
            neighbour_chunk(coord, Neighbour::Y, map, chunks),
            neighbour_chunk(coord, Neighbour::NegY, map, chunks),
            neighbour_chunk(coord, Neighbour::Z, map, chunks),
            neighbour_chunk(coord, Neighbour::NegZ, map, chunks),
        ],
    );
    assert(neighbours@ =~= neighbour_states(map@, chunks@, *coord));
    neighbours
}

/// The engine component that places a chunk: its chunk coordinate.
#[derive(Copy, Clone, Debug, PartialEq, Eq, Structural)]
pub struct ChunkComponent {
    pub coord: Int3,
}

impl ChunkComponent {
    /// Whether the chunk's origin has a representable world coordinate.
    pub open spec fn in_world(&self) -> bool {
        &&& i32::MIN <= self.coord.x * CHUNK_SIZE <= i32::MAX
        &&& i32::MIN <= self.coord.y * CHUNK_SIZE <= i32::MAX
        &&& i32::MIN <= self.coord.z * CHUNK_SIZE <= i32::MAX
    }

    /// World position of the chunk's origin: the chunk coordinate times
    /// the chunk size.
    pub fn translation(&self) -> (origin: Int3)
        requires
            self.in_world(),
        ensures
            origin.x == self.coord.x * CHUNK_SIZE,
            origin.y == self.coord.y * CHUNK_SIZE,
            origin.z == self.coord.z * CHUNK_SIZE,
    {
        Int3::new(self.coord.x * 32, self.coord.y * 32, self.coord.z * 32)
    }
}

} // verus!
