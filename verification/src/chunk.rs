//! The unit of storage: a cube of voxels with a dirty flag.

use vstd::prelude::*;

use crate::coords::{CHUNK_SIZE, CHUNK_VOLUME};
use crate::voxel::Voxel;

verus! {

/// Position of cell `(x, y, z)` in a chunk's flattened voxel array.
pub open spec fn flat_index(x: int, y: int, z: int) -> int {
    x + CHUNK_SIZE * (y + CHUNK_SIZE * z)
}

/// Whether `(x, y, z)` names a cell of a chunk.
pub open spec fn cell_in_chunk(x: int, y: int, z: int) -> bool {
    &&& 0 <= x < CHUNK_SIZE
    &&& 0 <= y < CHUNK_SIZE
    &&& 0 <= z < CHUNK_SIZE
}

/// The mathematical content of a chunk: its voxels in flattened order and
/// its dirty flag.
pub struct ChunkState {
    pub voxels: Seq<Voxel>,
    pub dirty: bool,
}

impl ChunkState {
    /// A chunk state holds exactly one voxel per cell.
    pub open spec fn wf(self) -> bool {
        self.voxels.len() == CHUNK_VOLUME
    }

    /// The state of a newly made chunk: all air, and dirty.
    pub open spec fn fresh() -> ChunkState {
        ChunkState { voxels: Seq::new(CHUNK_VOLUME as nat, |i: int| Voxel::spec_air()), dirty: true }
    }

    /// The voxel at cell `(x, y, z)`.
    pub open spec fn get(self, x: int, y: int, z: int) -> Voxel {
        self.voxels[flat_index(x, y, z)]
    }

    /// The state after writing `voxel` at cell `(x, y, z)`: that one cell
    /// changes and the chunk is dirty.
    pub open spec fn set(self, x: int, y: int, z: int, voxel: Voxel) -> ChunkState {
        ChunkState { voxels: self.voxels.update(flat_index(x, y, z), voxel), dirty: true }
    }

    /// The state after the dirty flag is cleared.
    pub open spec fn clear_dirty(self) -> ChunkState {
        ChunkState { voxels: self.voxels, dirty: false }
    }

    /// Whether the cell `(x, y, z)` holds a solid voxel.
    pub open spec fn solid_at(self, x: int, y: int, z: int) -> bool {
        !self.get(x, y, z).spec_is_air()
    }
}

/// A cube of `CHUNK_SIZE`³ voxels and a flag that tells whether its
/// geometry is out of date.
#[derive(Clone, Debug)]
pub struct Chunk {
    voxels: Vec<Voxel>,
    dirty: bool,
}

impl View for Chunk {
    type V = ChunkState;

    closed spec fn view(&self) -> ChunkState {
        ChunkState { voxels: self.voxels@, dirty: self.dirty }
    }
}

impl Default for Chunk {
    /// An all-air chunk, marked dirty like every newly made chunk, so that
    /// it is meshed once.
    fn default() -> (chunk: Chunk)
        ensures
            chunk@ == ChunkState::fresh(),
            chunk.wf(),
    {
        let chunk = Chunk { voxels: vec![Voxel::air(); CHUNK_VOLUME], dirty: true };
        assert(chunk@.voxels =~= ChunkState::fresh().voxels);
        chunk
    }
}

impl Chunk {
    /// A chunk holds exactly one voxel per cell.
    pub open spec fn wf(&self) -> bool {
        self@.wf()
    }

    /// An all-air chunk, marked dirty so that it is meshed once.
    pub fn new() -> (chunk: Chunk)
        ensures
            chunk@ == ChunkState::fresh(),
            chunk.wf(),
    {
        let chunk = Chunk { voxels: vec![Voxel::air(); CHUNK_VOLUME], dirty: true };
        assert(chunk@.voxels =~= ChunkState::fresh().voxels);
        chunk
    }

    /// Position of cell `(x, y, z)` in the flattened voxel array.
    pub fn index(x: usize, y: usize, z: usize) -> (i: usize)
        requires
            cell_in_chunk(x as int, y as int, z as int),
        ensures
            i == flat_index(x as int, y as int, z as int),
            i < CHUNK_VOLUME,
    {
        x + CHUNK_SIZE * (y + CHUNK_SIZE * z)
    }

    /// The voxel at cell `(x, y, z)`.
    pub fn get(&self, x: usize, y: usize, z: usize) -> (voxel: Voxel)
        requires
            self.wf(),
            cell_in_chunk(x as int, y as int, z as int),
        ensures
            voxel == self@.get(x as int, y as int, z as int),
    {
        self.voxels[Self::index(x, y, z)]
    }

    /// Overwrites the voxel at cell `(x, y, z)` and marks the chunk dirty,
    /// whether or not the value changed.
    pub fn set(&mut self, x: usize, y: usize, z: usize, voxel: Voxel)
        requires
            old(self).wf(),
            cell_in_chunk(x as int, y as int, z as int),
        ensures
            final(self)@ == old(self)@.set(x as int, y as int, z as int, voxel),
            final(self).wf(),
    {
        let idx = Self::index(x, y, z);
        self.voxels.set(idx, voxel);
        self.dirty = true;
    }

    /// The voxels in flattened order.
    pub fn voxels(&self) -> (voxels: &Vec<Voxel>)
        ensures
            voxels@ == self@.voxels,
    {
        &self.voxels
    }

    /// Whether the chunk changed since its mesh was last rebuilt.
    pub fn is_dirty(&self) -> (dirty: bool)
        ensures
            dirty == self@.dirty,
    {
        self.dirty
    }

    /// Records that the chunk's mesh is up to date.
    pub fn clear_dirty(&mut self)
        ensures
            final(self)@ == old(self)@.clear_dirty(),
            final(self).wf() == old(self).wf(),
    {
        self.dirty = false;
    }
}

/// Distinct cells of a chunk have distinct positions in the flattened array.
pub proof fn lemma_flat_index_injective(x1: int, y1: int, z1: int, x2: int, y2: int, z2: int)
    requires
        cell_in_chunk(x1, y1, z1),
        cell_in_chunk(x2, y2, z2),
        flat_index(x1, y1, z1) == flat_index(x2, y2, z2),
    ensures
        x1 == x2 && y1 == y2 && z1 == z2,
{
}

/// A new chunk is dirty and every one of its cells is air.
pub proof fn lemma_fresh_chunk_is_dirty_and_air(x: int, y: int, z: int)
    requires
        cell_in_chunk(x, y, z),
    ensures
        ChunkState::fresh().wf(),
        ChunkState::fresh().dirty,
        ChunkState::fresh().get(x, y, z).spec_is_air(),
        ChunkState::fresh().get(x, y, z) == Voxel::spec_air(),
{
}

/// Reading a cell after writing it gives the written value, every other
/// cell keeps its voxel, and the chunk is dirty, whatever the cell held before.
pub proof fn lemma_set_then_get(state: ChunkState, x: int, y: int, z: int, voxel: Voxel, x2: int, y2: int, z2: int)
    requires
        state.wf(),
        cell_in_chunk(x, y, z),
        cell_in_chunk(x2, y2, z2),
    ensures
        state.set(x, y, z, voxel).wf(),
        state.set(x, y, z, voxel).dirty,
        state.set(x, y, z, voxel).get(x, y, z) == voxel,
        (x2, y2, z2) != (x, y, z) ==> state.set(x, y, z, voxel).get(x2, y2, z2) == state.get(x2, y2, z2),
{
    if (x2, y2, z2) != (x, y, z) {
        if flat_index(x, y, z) == flat_index(x2, y2, z2) {
            lemma_flat_index_injective(x, y, z, x2, y2, z2);
        }
    }
}

/// Clearing the dirty flag is idempotent: after one call or two the chunk
/// is clean, and its voxels are untouched.
pub proof fn lemma_clear_dirty_idempotent(state: ChunkState)
    ensures
        !state.clear_dirty().dirty,
        !state.clear_dirty().clear_dirty().dirty,
        state.clear_dirty().clear_dirty() == state.clear_dirty(),
        state.clear_dirty().voxels == state.voxels,
{
}

} // verus!
