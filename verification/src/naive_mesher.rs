//! Per-voxel face culling: every face of a solid voxel that looks at air,
//! or at the edge of the loaded world, becomes one quad.

use vstd::prelude::*;

use crate::blocks::{BlockId, BlockRegistry, BlockTiles, TileId};
use crate::chunk::{cell_in_chunk, flat_index, Chunk, ChunkState};
use crate::coords::{rem_euclid, Int3, CHUNK_SIZE, CHUNK_VOLUME};
use crate::mesh::{MeshBuffers, MeshState};
use crate::meshers::{ChunkMesher, NeighborStates, Neighbors, Neighbour};

verus! {

/// Which of a block's three tiles a face shows.
#[derive(Copy, Clone, Debug, PartialEq, Eq, Structural)]
pub enum FaceKind {
    Top,
    Bottom,
    Side,
}

/// The face class of a normal: `+Y` is the top, `-Y` the bottom, and
/// everything else a side.
pub open spec fn face_kind_of(n: Int3) -> FaceKind {
    if n == (Int3 { x: 0, y: 1, z: 0 }) {
        FaceKind::Top
    } else if n == (Int3 { x: 0, y: (-1) as i32, z: 0 }) {
        FaceKind::Bottom
    } else {
        FaceKind::Side
    }
}

/// The tile of `tiles` that faces of class `kind` show.
pub open spec fn select_tile(tiles: BlockTiles, kind: FaceKind) -> TileId {
    match kind {
        FaceKind::Top => tiles.top,
        FaceKind::Bottom => tiles.bottom,
        FaceKind::Side => tiles.side,
    }
}

/// The face class of a normal.
pub fn face_kind_from_normal(n: Int3) -> (kind: FaceKind)
    ensures
        kind == face_kind_of(n),
{
    if n.x == 0 && n.y == 1 && n.z == 0 {
        FaceKind::Top
    } else if n.x == 0 && n.y == -1 && n.z == 0 {
        FaceKind::Bottom
    } else {
        FaceKind::Side
    }
}

/// Looks up the tile a block shows on a face of a given class.
pub struct TileResolver<'a> {
    pub registry: &'a BlockRegistry,
}

impl<'a> TileResolver<'a> {
    /// The tile of a registered block for a face class. The answer depends
    /// on the block id and the face class alone.
    pub fn resolve(&self, block_id: BlockId, face: FaceKind) -> (tile: TileId)
        requires
            self.registry.has(block_id),
        ensures
            tile == select_tile(self.registry@[block_id], face),
    {
        let t = self.registry.tiles(block_id);
        match face {
            FaceKind::Top => t.top,
            FaceKind::Bottom => t.bottom,
            FaceKind::Side => t.side,
        }
    }
}

/// The four corners of a face of the unit cube at the origin, in the
/// order in which the quad's vertices are emitted.
pub open spec fn corner_offsets(face: Neighbour) -> Seq<Int3> {
    match face {
        Neighbour::X => seq![
            Int3 { x: 1, y: 0, z: 0 },
            Int3 { x: 1, y: 1, z: 0 },
            Int3 { x: 1, y: 1, z: 1 },
            Int3 { x: 1, y: 0, z: 1 },
        ],
        Neighbour::NegX => seq![
            Int3 { x: 0, y: 0, z: 1 },
            Int3 { x: 0, y: 1, z: 1 },
            Int3 { x: 0, y: 1, z: 0 },
            Int3 { x: 0, y: 0, z: 0 },
        ],
        Neighbour::Y => seq![
            Int3 { x: 0, y: 1, z: 0 },
            Int3 { x: 0, y: 1, z: 1 },
            Int3 { x: 1, y: 1, z: 1 },
            Int3 { x: 1, y: 1, z: 0 },
        ],
        Neighbour::NegY => seq![
            Int3 { x: 0, y: 0, z: 1 },
            Int3 { x: 0, y: 0, z: 0 },
            Int3 { x: 1, y: 0, z: 0 },
            Int3 { x: 1, y: 0, z: 1 },
        ],
        Neighbour::Z => seq![
            Int3 { x: 0, y: 0, z: 1 },
            Int3 { x: 1, y: 0, z: 1 },
            Int3 { x: 1, y: 1, z: 1 },
            Int3 { x: 0, y: 1, z: 1 },
        ],
        Neighbour::NegZ => seq![
            Int3 { x: 1, y: 0, z: 0 },
            Int3 { x: 0, y: 0, z: 0 },
            Int3 { x: 0, y: 1, z: 0 },
            Int3 { x: 1, y: 1, z: 0 },
        ],
    }
}

/// The four corners of face `face` of the voxel at `cell`.
pub open spec fn face_corners(cell: Int3, face: Neighbour) -> Seq<Int3> {
    Seq::new(
        4,
        |j: int|
            Int3 {
                x: (cell.x + corner_offsets(face)[j].x) as i32,
                y: (cell.y + corner_offsets(face)[j].y) as i32,
                z: (cell.z + corner_offsets(face)[j].z) as i32,
            },
    )
}

/// The four corners of face `face` of the voxel at `base`, which must
/// not lie on the last representable coordinate of any axis.
pub fn face_vertices(base: Int3, face: Neighbour) -> (verts: [Int3; 4])
    requires
        base.x < i32::MAX,
        base.y < i32::MAX,
        base.z < i32::MAX,
    ensures
        verts@ == face_corners(base, face),
{
    let (x, y, z) = (base.x, base.y, base.z);
    let verts = match face {
        Neighbour::X => [
            Int3::new(x + 1, y, z),
            Int3::new(x + 1, y + 1, z),
            Int3::new(x + 1, y + 1, z + 1),
            Int3::new(x + 1, y, z + 1),
        ],
        Neighbour::NegX => [
            Int3::new(x, y, z + 1),
            Int3::new(x, y + 1, z + 1),
            Int3::new(x, y + 1, z),
            Int3::new(x, y, z),
        ],
        Neighbour::Y => [
            Int3::new(x, y + 1, z),
            Int3::new(x, y + 1, z + 1),
            Int3::new(x + 1, y + 1, z + 1),
            Int3::new(x + 1, y + 1, z),
        ],
        Neighbour::NegY => [
            Int3::new(x, y, z + 1),
            Int3::new(x, y, z),
            Int3::new(x + 1, y, z),
            Int3::new(x + 1, y, z + 1),
        ],
        Neighbour::Z => [
            Int3::new(x, y, z + 1),
            Int3::new(x + 1, y, z + 1),
            Int3::new(x + 1, y + 1, z + 1),
            Int3::new(x, y + 1, z + 1),
        ],
        Neighbour::NegZ => [
            Int3::new(x + 1, y, z),
            Int3::new(x, y, z),
            Int3::new(x, y + 1, z),
            Int3::new(x + 1, y + 1, z),
        ],
    };
    assert(verts@ =~= face_corners(base, face));
    verts
}

/// Whether every solid voxel of the chunk carries a registered block id.
pub open spec fn blocks_registered(chunk: ChunkState, registry: Map<BlockId, BlockTiles>) -> bool {
    forall|i: int|
        0 <= i < chunk.voxels.len() && !(#[trigger] chunk.voxels[i]).spec_is_air()
            ==> registry.contains_key(chunk.voxels[i].spec_block_id())
}

/// Whether the cell one step beyond face `face` of cell `(x, y, z)` is
/// solid. Inside the chunk the chunk itself answers. Beyond its edge the
/// neighbour in that direction answers, at the coordinate wrapped into
/// `[0, CHUNK_SIZE)`; where no neighbour is loaded the cell counts as air.
pub open spec fn beyond_is_solid(
    chunk: ChunkState,
    neighbours: NeighborStates,
    x: int,
    y: int,
    z: int,
    face: Neighbour,
) -> bool {
    let n = face.spec_normal();
    let (nx, ny, nz) = (x + n.x, y + n.y, z + n.z);
    if cell_in_chunk(nx, ny, nz) {
        chunk.solid_at(nx, ny, nz)
    } else {
        match neighbours[face.spec_index()] {
            Some(beyond) => beyond.solid_at(
                nx % (CHUNK_SIZE as int),
                ny % (CHUNK_SIZE as int),
                nz % (CHUNK_SIZE as int),
            ),
            None => false,
        }
    }
}

/// Whether face `face` of cell `(x, y, z)` is drawn: the cell is solid and
/// the cell beyond the face is not.
pub open spec fn face_exposed(
    chunk: ChunkState,
    neighbours: NeighborStates,
    x: int,
    y: int,
    z: int,
    face: Neighbour,
) -> bool {
    chunk.solid_at(x, y, z) && !beyond_is_solid(chunk, neighbours, x, y, z, face)
}

/// One emitted face: the voxel it belongs to, its direction, and the
/// atlas tile it shows.
pub struct Quad {
    pub cell: Int3,
    pub face: Neighbour,
    pub tile: TileId,
}

/// Number of (cell, face) pairs of a chunk.
pub const SLOT_COUNT: usize = 6 * CHUNK_VOLUME;

/// Position of the pair (cell, face) in scan order: `z` outermost, then
/// `y`, then `x`, then the face in the order +X, -X, +Y, -Y, +Z, -Z.
pub open spec fn slot_of(x: int, y: int, z: int, face: Neighbour) -> int {
    6 * flat_index(x, y, z) + face.spec_index()
}

/// The cell of the pair at position `slot` of the scan order.
pub open spec fn slot_cell(slot: int) -> Int3 {
    Int3 {
        x: ((slot / 6) % (CHUNK_SIZE as int)) as i32,
        y: ((slot / 6 / (CHUNK_SIZE as int)) % (CHUNK_SIZE as int)) as i32,
        z: (slot / 6 / (CHUNK_SIZE as int) / (CHUNK_SIZE as int)) as i32,
    }
}

/// The face of the pair at position `slot` of the scan order.
pub open spec fn slot_face(slot: int) -> Neighbour {
    Neighbour::from_index(slot % 6)
}

/// Whether the face at position `slot` of the scan order is drawn.
pub open spec fn slot_exposed(chunk: ChunkState, neighbours: NeighborStates, slot: int) -> bool {
    face_exposed(
        chunk,
        neighbours,
        slot_cell(slot).x as int,
        slot_cell(slot).y as int,
        slot_cell(slot).z as int,
        slot_face(slot),
    )
}

/// The quad drawn for face `face` of cell `cell`. Its tile is chosen by
/// the cell's own block id and the face class, never by what surrounds it.
pub open spec fn quad_at(chunk: ChunkState, registry: Map<BlockId, BlockTiles>, cell: Int3, face: Neighbour) -> Quad {
    Quad {
        cell,
        face,
        tile: select_tile(
            registry[chunk.get(cell.x as int, cell.y as int, cell.z as int).spec_block_id()],
            face_kind_of(face.spec_normal()),
        ),
    }
}

/// The quads of the first `n` positions of the scan order: one for each
/// exposed face, in scan order.
pub open spec fn quads_upto(
    chunk: ChunkState,
    neighbours: NeighborStates,
    registry: Map<BlockId, BlockTiles>,
    n: nat,
) -> Seq<Quad>
    decreases n,
{
    if n == 0 {
        Seq::empty()
    } else {
        let slot = (n - 1) as int;
        let before = quads_upto(chunk, neighbours, registry, (n - 1) as nat);
        if slot_exposed(chunk, neighbours, slot) {
            before.push(quad_at(chunk, registry, slot_cell(slot), slot_face(slot)))
        } else {
            before
        }
    }
}

/// All quads of a chunk: one per exposed face, in scan order.
pub open spec fn visible_quads(
    chunk: ChunkState,
    neighbours: NeighborStates,
    registry: Map<BlockId, BlockTiles>,
) -> Seq<Quad> {
    quads_upto(chunk, neighbours, registry, SLOT_COUNT as nat)
}

/// The buffers of a list of quads: the quads' buffers one after another.
pub open spec fn mesh_of_quads(quads: Seq<Quad>) -> MeshState
    decreases quads.len(),
{
    if quads.len() == 0 {
        MeshState::empty()
    } else {
        let q = quads.last();
        mesh_of_quads(quads.drop_last()).push_quad(face_corners(q.cell, q.face), q.tile, q.face.spec_normal())
    }
}

/// The mesh of a chunk among its neighbours.
pub open spec fn naive_mesh(
    chunk: ChunkState,
    neighbours: NeighborStates,
    registry: Map<BlockId, BlockTiles>,
) -> MeshState {
    mesh_of_quads(visible_quads(chunk, neighbours, registry))
}

/// Whether face `face` of cell `(x, y, z)` must be drawn.
pub fn face_is_exposed(
    chunk: &Chunk,
    neighbours: Neighbors,
    x: usize,
    y: usize,
    z: usize,
    face: Neighbour,
) -> (exposed: bool)
    requires
        chunk.wf(),
        neighbours.wf(),
        cell_in_chunk(x as int, y as int, z as int),
    ensures
        exposed == face_exposed(chunk@, neighbours@, x as int, y as int, z as int, face),
{
    if chunk.get(x, y, z).is_air() {
        return false;
    }
    let n = face.normal();
    let size: i32 = CHUNK_SIZE as i32;
    let nx: i32 = x as i32 + n.x;
    let ny: i32 = y as i32 + n.y;
    let nz: i32 = z as i32 + n.z;
    let outside = nx < 0 || ny < 0 || nz < 0 || nx >= size || ny >= size || nz >= size;
    if !outside {
        chunk.get(nx as usize, ny as usize, nz as usize).is_air()
    } else {
        match neighbours.get(face) {
            None => true,
            Some(beyond) => {
                let wx = rem_euclid(nx, size) as usize;
                let wy = rem_euclid(ny, size) as usize;
                let wz = rem_euclid(nz, size) as usize;
                beyond.get(wx, wy, wz).is_air()
            },
        }
    }
}

/// The mesher that culls faces voxel by voxel.
pub struct NaiveMesher;

impl ChunkMesher for NaiveMesher {
    /// One quad per exposed face, in scan order.
    open spec fn mesh_of(
        &self,
        chunk: ChunkState,
        neighbours: NeighborStates,
        registry: Map<BlockId, BlockTiles>,
    ) -> MeshState {
        naive_mesh(chunk, neighbours, registry)
    }

    /// Emits, in scan order, one quad for every face of a solid voxel
    /// whose cell beyond is air or not loaded.
    #[verifier::rlimit(60)]
    fn build_mesh(&self, chunk: &Chunk, neighbours: Neighbors, registry: &BlockRegistry) -> (mesh: MeshBuffers)
        ensures
            mesh@ == naive_mesh(chunk@, neighbours@, registry@),
    {
        let resolver = TileResolver { registry };
        let mut builder = MeshBuffers::new();
        let faces = Neighbour::all();
        let ghost c = chunk@;
        let ghost nb = neighbours@;
        let ghost reg = registry@;
        let mut z: usize = 0;
        while z < CHUNK_SIZE
            invariant
                z <= CHUNK_SIZE,
                chunk.wf(),
                neighbours.wf(),
                blocks_registered(chunk@, registry@),
                resolver.registry == registry,
                c == chunk@,
                nb == neighbours@,
                reg == registry@,
                forall|i: int| 0 <= i < 6 ==> faces[i] == Neighbour::from_index(i),
                builder@ == mesh_of_quads(quads_upto(c, nb, reg, (6 * flat_index(0, 0, z as int)) as nat)),
            decreases CHUNK_SIZE - z,
        {
            let mut y: usize = 0;
            while y < CHUNK_SIZE
                invariant
                    z < CHUNK_SIZE,
                    y <= CHUNK_SIZE,
                    chunk.wf(),
                    neighbours.wf(),
                    blocks_registered(chunk@, registry@),
                    resolver.registry == registry,
                    c == chunk@,
                    nb == neighbours@,
                    reg == registry@,
                    forall|i: int| 0 <= i < 6 ==> faces[i] == Neighbour::from_index(i),
                    builder@ == mesh_of_quads(
                        quads_upto(c, nb, reg, (6 * flat_index(0, y as int, z as int)) as nat),
                    ),
                decreases CHUNK_SIZE - y,
            {
                let mut x: usize = 0;
                while x < CHUNK_SIZE
                    invariant
                        z < CHUNK_SIZE,
                        y < CHUNK_SIZE,
                        x <= CHUNK_SIZE,
                        chunk.wf(),
                        neighbours.wf(),
                        blocks_registered(chunk@, registry@),
                        resolver.registry == registry,
                        c == chunk@,
                        nb == neighbours@,
                        reg == registry@,
                        forall|i: int| 0 <= i < 6 ==> faces[i] == Neighbour::from_index(i),
                        builder@ == mesh_of_quads(
                            quads_upto(c, nb, reg, (6 * flat_index(x as int, y as int, z as int)) as nat),
                        ),
                    decreases CHUNK_SIZE - x,
                {
                    let voxel = chunk.get(x, y, z);
                    let base = Int3::new(x as i32, y as i32, z as i32);
                    let ghost start = 6 * flat_index(x as int, y as int, z as int);
                    let mut f: usize = 0;
                    while f < 6
                        invariant
                            z < CHUNK_SIZE,
                            y < CHUNK_SIZE,
                            x < CHUNK_SIZE,
                            f <= 6,
                            chunk.wf(),
                            neighbours.wf(),
                            blocks_registered(chunk@, registry@),
                            resolver.registry == registry,
                            c == chunk@,
                            nb == neighbours@,
                            reg == registry@,
                            voxel == c.get(x as int, y as int, z as int),
                            base == (Int3 { x: x as i32, y: y as i32, z: z as i32 }),
                            start == 6 * flat_index(x as int, y as int, z as int),
                            forall|i: int| 0 <= i < 6 ==> faces[i] == Neighbour::from_index(i),
                            builder@ == mesh_of_quads(quads_upto(c, nb, reg, (start + f) as nat)),
                        decreases 6 - f,
                    {
                        let face = faces[f];
                        proof {
                            lemma_slot_roundtrip(x as int, y as int, z as int, face);
                            lemma_quad_count_bound(c, nb, reg, (start + f) as nat);
                            lemma_mesh_of_quads_lengths(quads_upto(c, nb, reg, (start + f) as nat));
                        }
                        if face_is_exposed(chunk, neighbours, x, y, z, face) {
                            let face_kind = face_kind_from_normal(face.normal());
                            assert(reg.contains_key(voxel.spec_block_id())) by {
                                assert(!c.voxels[flat_index(x as int, y as int, z as int)].spec_is_air());
                            }
                            let tile_id = resolver.resolve(voxel.block_id(), face_kind);
                            let verts = face_vertices(base, face);
                            builder.add_quad(verts, tile_id, face.normal());
                            proof {
                                let before = quads_upto(c, nb, reg, (start + f) as nat);
                                let after = quads_upto(c, nb, reg, (start + f + 1) as nat);
                                assert(after == before.push(quad_at(c, reg, base, face)));
                                assert(after.drop_last() =~= before);
                            }
                        }
                        f += 1;
                    }
                    x += 1;
                }
                y += 1;
            }
            z += 1;
        }
        proof {
            lemma_quad_count_bound(c, nb, reg, SLOT_COUNT as nat);
            lemma_mesh_of_quads_wf(visible_quads(c, nb, reg));
        }
        builder
    }
}

/// The pair (cell, face) sits at position `slot_of` of the scan order.
pub proof fn lemma_slot_roundtrip(x: int, y: int, z: int, face: Neighbour)
    requires
        cell_in_chunk(x, y, z),
    ensures
        0 <= slot_of(x, y, z, face) < SLOT_COUNT,
        slot_cell(slot_of(x, y, z, face)) == (Int3 { x: x as i32, y: y as i32, z: z as i32 }),
        slot_face(slot_of(x, y, z, face)) == face,
{
}

/// At most one quad is emitted per position of the scan order.
pub proof fn lemma_quad_count_bound(
    chunk: ChunkState,
    neighbours: NeighborStates,
    registry: Map<BlockId, BlockTiles>,
    n: nat,
)
    ensures
        quads_upto(chunk, neighbours, registry, n).len() <= n,
    decreases n,
{
    if n > 0 {
        lemma_quad_count_bound(chunk, neighbours, registry, (n - 1) as nat);
    }
}

/// A mesh of `k` quads has `4 k` vertices and `6 k` indices.
pub proof fn lemma_mesh_of_quads_lengths(quads: Seq<Quad>)
    ensures
        mesh_of_quads(quads).positions.len() == 4 * quads.len(),
        mesh_of_quads(quads).normals.len() == 4 * quads.len(),
        mesh_of_quads(quads).uvs.len() == 4 * quads.len(),
        mesh_of_quads(quads).tile_ids.len() == 4 * quads.len(),
        mesh_of_quads(quads).indices.len() == 6 * quads.len(),
    decreases quads.len(),
{
    if quads.len() > 0 {
        lemma_mesh_of_quads_lengths(quads.drop_last());
    }
}

/// The buffers of a list of quads are well formed.
pub proof fn lemma_mesh_of_quads_wf(quads: Seq<Quad>)
    requires
        4 * quads.len() <= u32::MAX,
    ensures
        mesh_of_quads(quads).wf(),
        mesh_of_quads(quads).quad_count() == quads.len(),
    decreases quads.len(),
{
    lemma_mesh_of_quads_lengths(quads);
    if quads.len() > 0 {
        let inner = mesh_of_quads(quads.drop_last());
        let outer = mesh_of_quads(quads);
        lemma_mesh_of_quads_wf(quads.drop_last());
        lemma_mesh_of_quads_lengths(quads.drop_last());
        assert forall|i: int| 0 <= i < outer.indices.len() implies (#[trigger] outer.indices[i])
            < outer.positions.len() by {
            if i < inner.indices.len() {
                assert(outer.indices[i] == inner.indices[i]);
            } else {
                assert(outer.indices[i] == crate::mesh::quad_indices(inner.positions.len() as int)[i
                    - inner.indices.len()]);
            }
        }
    }
}

} // verus!
