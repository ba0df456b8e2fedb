//! The rebuild pass, one chunk at a time: decide whether a chunk needs a
//! new mesh, build it, and record that it was installed.
//!
//! The pass is split in two so that the dirty flag is cleared only after
//! the caller has attached the new mesh: [`rebuild_dirty_chunk`] reads the
//! world and hands out the mesh, [`finish_rebuild`] clears the flag.

use vstd::prelude::*;

use crate::blocks::{BlockId, BlockRegistry, BlockTiles};
use crate::chunk::{Chunk, ChunkState};
use crate::coords::{Int3, CHUNK_VOLUME};
use crate::mesh::{MeshBuffers, MeshState};
use crate::meshers::ChunkMesher;
use crate::naive_mesher::blocks_registered;
use crate::world::{get_neighbours, neighbour_states, ChunkEntityMap, Chunks, EntityId};

verus! {

/// What the rebuild pass does for one chunk-owning entity.
pub enum Rebuild {
    /// The entity owns no chunk, or its chunk is clean: nothing to do.
    Skip,
    /// The chunk is dirty and this is its new mesh, to be attached in
    /// place of the old one.
    Install(MeshBuffers),
    /// The chunk is dirty but holds a solid voxel whose block is not in
    /// the registry, so no tile can be resolved for it.
    UnregisteredBlock,
}

/// What the rebuild pass has to do for `entity`, as a specification value.
pub enum RebuildPlan {
    Skip,
    Install(MeshState),
    UnregisteredBlock,
}

impl View for Rebuild {
    type V = RebuildPlan;

    open spec fn view(&self) -> RebuildPlan {
        match self {
            Rebuild::Skip => RebuildPlan::Skip,
            Rebuild::Install(mesh) => RebuildPlan::Install(mesh@),
            Rebuild::UnregisteredBlock => RebuildPlan::UnregisteredBlock,
        }
    }
}

/// The rebuild of the chunk of `entity`, which sits at `coord`: skipped
/// unless the chunk exists and is dirty; otherwise the mesh that `mesher`
/// makes of the chunk among the neighbours the index resolves.
pub open spec fn rebuild_plan<M: ChunkMesher + ?Sized>(
    mesher: &M,
    entity: EntityId,
    coord: Int3,
    chunks: Map<EntityId, ChunkState>,
    index: Map<Int3, EntityId>,
    registry: Map<BlockId, BlockTiles>,
) -> RebuildPlan {
    if !chunks.contains_key(entity) || !chunks[entity].dirty {
        RebuildPlan::Skip
    } else if !blocks_registered(chunks[entity], registry) {
        RebuildPlan::UnregisteredBlock
    } else {
        RebuildPlan::Install(mesher.mesh_of(chunks[entity], neighbour_states(index, chunks, coord), registry))
    }
}

/// Whether every solid voxel of `chunk` carries a registered block id.
pub fn chunk_blocks_registered(chunk: &Chunk, registry: &BlockRegistry) -> (registered: bool)
    requires
        chunk.wf(),
    ensures
        registered == blocks_registered(chunk@, registry@),
{
    let voxels = chunk.voxels();
    let mut i: usize = 0;
    while i < CHUNK_VOLUME
        invariant
            i <= CHUNK_VOLUME,
            voxels@ == chunk@.voxels,
            voxels@.len() == CHUNK_VOLUME,
            forall|j: int|
                0 <= j < i && !(#[trigger] voxels@[j]).spec_is_air() ==> registry@.contains_key(
                    voxels@[j].spec_block_id(),
                ),
        decreases CHUNK_VOLUME - i,
    {
        let voxel = voxels[i];
        if !voxel.is_air() && registry.get(voxel.block_id()).is_none() {
            return false;
        }
        i += 1;
    }
    true
}

/// The first half of a chunk's rebuild. A missing or clean chunk is
/// skipped. For a dirty chunk the six neighbours are resolved through the
/// index and the mesher runs. Nothing is changed: the chunk stays dirty
/// until [`finish_rebuild`] is called for it.
pub fn rebuild_dirty_chunk<M: ChunkMesher + ?Sized>(
    mesher: &M,
    entity: EntityId,
    coord: &Int3,
    chunks: &Chunks,
    chunk_map: &ChunkEntityMap,
    registry: &BlockRegistry,
) -> (action: Rebuild)
    requires
        chunks.wf(),
    ensures
        action@ == rebuild_plan(mesher, entity, *coord, chunks@, chunk_map@, registry@),
        action matches Rebuild::Install(mesh) ==> mesh@.wf(),
{
    let chunk = match chunks.get(entity) {
        Some(chunk) => chunk,
        None => {
            return Rebuild::Skip;
        },
    };
    if !chunk.is_dirty() {
        return Rebuild::Skip;
    }
    if !chunk_blocks_registered(chunk, registry) {
        return Rebuild::UnregisteredBlock;
    }
    let neighbours = get_neighbours(coord, chunk_map, chunks);
    Rebuild::Install(mesher.build_mesh(chunk, neighbours, registry))
}

/// The chunk store after the chunk of `entity` was marked clean.
pub open spec fn after_rebuild(chunks: Map<EntityId, ChunkState>, entity: EntityId) -> Map<EntityId, ChunkState> {
    if chunks.contains_key(entity) {
        chunks.insert(entity, chunks[entity].clear_dirty())
    } else {
        chunks
    }
}

/// The second half of a chunk's rebuild, to be called once the new mesh
/// is attached: clears the chunk's dirty flag. No voxel and no other
/// chunk changes.
pub fn finish_rebuild(entity: EntityId, chunks: &mut Chunks)
    requires
        old(chunks).wf(),
    ensures
        final(chunks).wf(),
        final(chunks)@ == after_rebuild(old(chunks)@, entity),
{
    match chunks.remove(entity) {
        Some(mut chunk) => {
            chunk.clear_dirty();
            chunks.insert(entity, chunk);
            assert(chunks@ =~= after_rebuild(old(chunks)@, entity));
        },
        None => {
            assert(chunks@ =~= after_rebuild(old(chunks)@, entity));
        },
    }
}

/// Finishing a rebuild touches the dirty flag of one chunk and nothing
/// else: every chunk keeps its voxels, and no chunk appears or disappears.
pub proof fn lemma_rebuild_keeps_voxels(chunks: Map<EntityId, ChunkState>, entity: EntityId, other: EntityId)
    requires
        chunks.contains_key(other),
    ensures
        after_rebuild(chunks, entity).dom() == chunks.dom(),
        after_rebuild(chunks, entity)[other].voxels == chunks[other].voxels,
        other != entity ==> after_rebuild(chunks, entity)[other] == chunks[other],
        chunks.contains_key(entity) ==> !after_rebuild(chunks, entity)[entity].dirty,
{
    assert(after_rebuild(chunks, entity).dom() =~= chunks.dom());
}

/// A rebuilt chunk is not rebuilt again: once [`finish_rebuild`] ran for
/// an entity, the next pass skips it, until a voxel of the chunk is set.
pub proof fn lemma_rebuilt_chunk_is_skipped<M: ChunkMesher + ?Sized>(
    mesher: &M,
    entity: EntityId,
    coord: Int3,
    chunks: Map<EntityId, ChunkState>,
    index: Map<Int3, EntityId>,
    registry: Map<BlockId, BlockTiles>,
)
    ensures
        rebuild_plan(mesher, entity, coord, after_rebuild(chunks, entity), index, registry) == RebuildPlan::Skip,
        after_rebuild(after_rebuild(chunks, entity), entity) == after_rebuild(chunks, entity),
{
    assert(after_rebuild(after_rebuild(chunks, entity), entity) =~= after_rebuild(chunks, entity));
}

/// Setting a voxel schedules the chunk: after any `set`, also one that
/// writes the value the cell already held, the next pass rebuilds the
/// chunk when its blocks are registered.
pub proof fn lemma_edited_chunk_is_rebuilt<M: ChunkMesher + ?Sized>(
    mesher: &M,
    entity: EntityId,
    coord: Int3,
    chunks: Map<EntityId, ChunkState>,
    index: Map<Int3, EntityId>,
    registry: Map<BlockId, BlockTiles>,
    x: int,
    y: int,
    z: int,
    voxel: crate::voxel::Voxel,
)
    requires
        chunks.contains_key(entity),
        blocks_registered(chunks[entity].set(x, y, z, voxel), registry),
    ensures
        rebuild_plan(
            mesher,
            entity,
            coord,
            chunks.insert(entity, chunks[entity].set(x, y, z, voxel)),
            index,
            registry,
        ) is Install,
{
}

} // verus!
