//! What holds of every mesh the face-culling mesher builds.

use vstd::prelude::*;

use crate::blocks::{BlockId, BlockTiles};
use crate::chunk::{cell_in_chunk, ChunkState};
use crate::coords::{Int3, CHUNK_SIZE};
use crate::mesh::{face_uvs_of, quad_indices};
use crate::meshers::{NeighborStates, Neighbour};
use crate::naive_mesher::{
    beyond_is_solid, face_corners, face_exposed, lemma_mesh_of_quads_lengths, mesh_of_quads, naive_mesh, quad_at,
    quads_upto, slot_cell, slot_exposed, slot_face, slot_of, visible_quads, Quad, SLOT_COUNT,
};

verus! {

/// The exposed faces of a chunk, each named by its position in scan order.
pub open spec fn exposed_slots(chunk: ChunkState, neighbours: NeighborStates) -> Set<int> {
    Set::new(|slot: int| 0 <= slot < SLOT_COUNT && slot_exposed(chunk, neighbours, slot))
}

/// Position `slot` of the scan order holds the pair (cell, face) that sits there.
pub proof fn lemma_slot_decode(slot: int)
    requires
        0 <= slot < SLOT_COUNT,
    ensures
        slot_cell(slot).in_chunk(),
        slot_of(slot_cell(slot).x as int, slot_cell(slot).y as int, slot_cell(slot).z as int, slot_face(slot))
            == slot,
{
}

/// The quads of a shorter scan are the first quads of a longer one.
pub proof fn lemma_quads_prefix(
    chunk: ChunkState,
    neighbours: NeighborStates,
    registry: Map<BlockId, BlockTiles>,
    m: nat,
    n: nat,
)
    requires
        m <= n,
    ensures
        quads_upto(chunk, neighbours, registry, m).len() <= quads_upto(chunk, neighbours, registry, n).len(),
        forall|i: int|
            0 <= i < quads_upto(chunk, neighbours, registry, m).len() ==> quads_upto(
                chunk,
                neighbours,
                registry,
                n,
            )[i] == quads_upto(chunk, neighbours, registry, m)[i],
    decreases n,
{
    if m < n {
        lemma_quads_prefix(chunk, neighbours, registry, m, (n - 1) as nat);
    }
}

/// Every exposed face is drawn: the face of a solid voxel whose cell
/// beyond is air or not loaded has its quad in the mesh, after the quads
/// of all exposed faces that come earlier in scan order.
pub proof fn lemma_exposed_face_is_drawn(
    chunk: ChunkState,
    neighbours: NeighborStates,
    registry: Map<BlockId, BlockTiles>,
    x: int,
    y: int,
    z: int,
    face: Neighbour,
) -> (k: int)
    requires
        cell_in_chunk(x, y, z),
        face_exposed(chunk, neighbours, x, y, z, face),
    ensures
        0 <= k < visible_quads(chunk, neighbours, registry).len(),
        k == quads_upto(chunk, neighbours, registry, slot_of(x, y, z, face) as nat).len(),
        visible_quads(chunk, neighbours, registry)[k] == quad_at(
            chunk,
            registry,
            Int3 { x: x as i32, y: y as i32, z: z as i32 },
            face,
        ),
{
    let slot = slot_of(x, y, z, face);
    crate::naive_mesher::lemma_slot_roundtrip(x, y, z, face);
    let before = quads_upto(chunk, neighbours, registry, slot as nat);
    let with = quads_upto(chunk, neighbours, registry, (slot + 1) as nat);
    assert(with == before.push(quad_at(chunk, registry, slot_cell(slot), slot_face(slot))));
    lemma_quads_prefix(chunk, neighbours, registry, (slot + 1) as nat, SLOT_COUNT as nat);
    assert(with[before.len() as int] == quad_at(chunk, registry, slot_cell(slot), slot_face(slot)));
    before.len() as int
}

/// Every quad among the first `n` positions belongs to an exposed face
/// that lies before position `n`, and holds the place of that face among
/// the exposed faces.
pub proof fn lemma_quad_origin(
    chunk: ChunkState,
    neighbours: NeighborStates,
    registry: Map<BlockId, BlockTiles>,
    n: nat,
    k: int,
)
    requires
        n <= SLOT_COUNT,
        0 <= k < quads_upto(chunk, neighbours, registry, n).len(),
    ensures
        ({
            let q = quads_upto(chunk, neighbours, registry, n)[k];
            let slot = slot_of(q.cell.x as int, q.cell.y as int, q.cell.z as int, q.face);
            &&& q.cell.in_chunk()
            &&& 0 <= slot < n
            &&& face_exposed(chunk, neighbours, q.cell.x as int, q.cell.y as int, q.cell.z as int, q.face)
            &&& q == quad_at(chunk, registry, q.cell, q.face)
            &&& quads_upto(chunk, neighbours, registry, slot as nat).len() == k
        }),
    decreases n,
{
    let slot = (n - 1) as int;
    let before = quads_upto(chunk, neighbours, registry, (n - 1) as nat);
    if slot_exposed(chunk, neighbours, slot) && k == before.len() {
        lemma_slot_decode(slot);
    } else {
        lemma_quad_origin(chunk, neighbours, registry, (n - 1) as nat, k);
    }
}

/// Only exposed faces are drawn: every quad of the mesh belongs to a
/// solid voxel of the chunk and to a face of it whose cell beyond is air
/// or not loaded, and it shows the tile that the voxel's own block has
/// for that face.
pub proof fn lemma_drawn_quad_is_exposed(
    chunk: ChunkState,
    neighbours: NeighborStates,
    registry: Map<BlockId, BlockTiles>,
    k: int,
)
    requires
        0 <= k < visible_quads(chunk, neighbours, registry).len(),
    ensures
        ({
            let q = visible_quads(chunk, neighbours, registry)[k];
            &&& q.cell.in_chunk()
            &&& face_exposed(chunk, neighbours, q.cell.x as int, q.cell.y as int, q.cell.z as int, q.face)
            &&& q == quad_at(chunk, registry, q.cell, q.face)
        }),
{
    lemma_quad_origin(chunk, neighbours, registry, SLOT_COUNT as nat, k);
}

/// Quads come in scan order, so no face is drawn twice.
pub proof fn lemma_quads_in_scan_order(
    chunk: ChunkState,
    neighbours: NeighborStates,
    registry: Map<BlockId, BlockTiles>,
    k1: int,
    k2: int,
)
    requires
        0 <= k1 < k2 < visible_quads(chunk, neighbours, registry).len(),
    ensures
        ({
            let q1 = visible_quads(chunk, neighbours, registry)[k1];
            let q2 = visible_quads(chunk, neighbours, registry)[k2];
            slot_of(q1.cell.x as int, q1.cell.y as int, q1.cell.z as int, q1.face) < slot_of(
                q2.cell.x as int,
                q2.cell.y as int,
                q2.cell.z as int,
                q2.face,
            )
        }),
{
    let q1 = visible_quads(chunk, neighbours, registry)[k1];
    let q2 = visible_quads(chunk, neighbours, registry)[k2];
    let s1 = slot_of(q1.cell.x as int, q1.cell.y as int, q1.cell.z as int, q1.face);
    let s2 = slot_of(q2.cell.x as int, q2.cell.y as int, q2.cell.z as int, q2.face);
    lemma_quad_origin(chunk, neighbours, registry, SLOT_COUNT as nat, k1);
    lemma_quad_origin(chunk, neighbours, registry, SLOT_COUNT as nat, k2);
    if s1 >= s2 {
        lemma_quads_prefix(chunk, neighbours, registry, s2 as nat, s1 as nat);
    }
}

/// A face whose cell beyond is solid is never drawn, whether that cell
/// lies in the same chunk or in a loaded neighbour.
pub proof fn lemma_hidden_face_is_culled(
    chunk: ChunkState,
    neighbours: NeighborStates,
    registry: Map<BlockId, BlockTiles>,
    x: int,
    y: int,
    z: int,
    face: Neighbour,
    k: int,
)
    requires
        cell_in_chunk(x, y, z),
        beyond_is_solid(chunk, neighbours, x, y, z, face),
        0 <= k < visible_quads(chunk, neighbours, registry).len(),
    ensures
        !(visible_quads(chunk, neighbours, registry)[k].cell == (Int3 { x: x as i32, y: y as i32, z: z as i32 })
            && visible_quads(chunk, neighbours, registry)[k].face == face),
{
    lemma_drawn_quad_is_exposed(chunk, neighbours, registry, k);
}

/// No geometry is made for air: no quad belongs to an air voxel.
pub proof fn lemma_air_has_no_quads(
    chunk: ChunkState,
    neighbours: NeighborStates,
    registry: Map<BlockId, BlockTiles>,
    k: int,
)
    requires
        0 <= k < visible_quads(chunk, neighbours, registry).len(),
    ensures
        ({
            let q = visible_quads(chunk, neighbours, registry)[k];
            chunk.solid_at(q.cell.x as int, q.cell.y as int, q.cell.z as int)
        }),
{
    lemma_drawn_quad_is_exposed(chunk, neighbours, registry, k);
}

/// At the edge of a chunk the neighbour decides. A face of a solid voxel
/// that looks out of the chunk is exposed when no neighbour is loaded in
/// that direction; with a neighbour loaded it is exposed exactly when the
/// neighbour's cell at the wrapped coordinate is air.
pub proof fn lemma_boundary_rule(chunk: ChunkState, neighbours: NeighborStates, x: int, y: int, z: int, face: Neighbour)
    requires
        cell_in_chunk(x, y, z),
        chunk.solid_at(x, y, z),
        !cell_in_chunk(x + face.spec_normal().x, y + face.spec_normal().y, z + face.spec_normal().z),
    ensures
        neighbours[face.spec_index()] is None ==> face_exposed(chunk, neighbours, x, y, z, face),
        neighbours[face.spec_index()] matches Some(beyond) ==> (face_exposed(chunk, neighbours, x, y, z, face)
            <==> !beyond.solid_at(
            (x + face.spec_normal().x) % (CHUNK_SIZE as int),
            (y + face.spec_normal().y) % (CHUNK_SIZE as int),
            (z + face.spec_normal().z) % (CHUNK_SIZE as int),
        )),
{
}

/// Whether the mesh holds a quad for face `face` of cell `(x, y, z)`.
pub open spec fn is_drawn(
    chunk: ChunkState,
    neighbours: NeighborStates,
    registry: Map<BlockId, BlockTiles>,
    x: int,
    y: int,
    z: int,
    face: Neighbour,
) -> bool {
    exists|k: int|
        0 <= k < visible_quads(chunk, neighbours, registry).len() && (#[trigger] visible_quads(
            chunk,
            neighbours,
            registry,
        )[k]).cell == (Int3 { x: x as i32, y: y as i32, z: z as i32 }) && visible_quads(
            chunk,
            neighbours,
            registry,
        )[k].face == face
}

/// A face is drawn exactly when it is exposed.
pub proof fn lemma_drawn_iff_exposed(
    chunk: ChunkState,
    neighbours: NeighborStates,
    registry: Map<BlockId, BlockTiles>,
    x: int,
    y: int,
    z: int,
    face: Neighbour,
)
    requires
        cell_in_chunk(x, y, z),
    ensures
        is_drawn(chunk, neighbours, registry, x, y, z, face) <==> face_exposed(chunk, neighbours, x, y, z, face),
{
    if face_exposed(chunk, neighbours, x, y, z, face) {
        let k = lemma_exposed_face_is_drawn(chunk, neighbours, registry, x, y, z, face);
        assert(visible_quads(chunk, neighbours, registry)[k].cell == (Int3 { x: x as i32, y: y as i32, z: z as i32 }));
    }
    if is_drawn(chunk, neighbours, registry, x, y, z, face) {
        let k = choose|k: int|
            0 <= k < visible_quads(chunk, neighbours, registry).len() && (#[trigger] visible_quads(
                chunk,
                neighbours,
                registry,
            )[k]).cell == (Int3 { x: x as i32, y: y as i32, z: z as i32 }) && visible_quads(
                chunk,
                neighbours,
                registry,
            )[k].face == face;
        lemma_drawn_quad_is_exposed(chunk, neighbours, registry, k);
    }
}

/// The edge of the loaded world shows no holes, and loaded neighbours
/// hide what they cover. A face of a solid voxel that looks out of the
/// chunk is drawn when no neighbour is loaded in that direction. With a
/// neighbour loaded it is drawn exactly when the neighbour's cell at the
/// wrapped coordinate is air.
pub proof fn lemma_boundary_face_is_drawn(
    chunk: ChunkState,
    neighbours: NeighborStates,
    registry: Map<BlockId, BlockTiles>,
    x: int,
    y: int,
    z: int,
    face: Neighbour,
)
    requires
        cell_in_chunk(x, y, z),
        chunk.solid_at(x, y, z),
        !cell_in_chunk(x + face.spec_normal().x, y + face.spec_normal().y, z + face.spec_normal().z),
    ensures
        neighbours[face.spec_index()] is None ==> is_drawn(chunk, neighbours, registry, x, y, z, face),
        neighbours[face.spec_index()] matches Some(beyond) ==> (is_drawn(chunk, neighbours, registry, x, y, z, face)
            <==> !beyond.solid_at(
            (x + face.spec_normal().x) % (CHUNK_SIZE as int),
            (y + face.spec_normal().y) % (CHUNK_SIZE as int),
            (z + face.spec_normal().z) % (CHUNK_SIZE as int),
        )),
{
    lemma_boundary_rule(chunk, neighbours, x, y, z, face);
    lemma_drawn_iff_exposed(chunk, neighbours, registry, x, y, z, face);
}

/// What surrounds a voxel decides whether a face is drawn, never how:
/// under any two sets of neighbours that both expose a face, the quad
/// drawn for it is the same, tile included.
pub proof fn lemma_tile_ignores_neighbours(
    chunk: ChunkState,
    neighbours: NeighborStates,
    others: NeighborStates,
    registry: Map<BlockId, BlockTiles>,
    x: int,
    y: int,
    z: int,
    face: Neighbour,
) -> (at: (int, int))
    requires
        cell_in_chunk(x, y, z),
        face_exposed(chunk, neighbours, x, y, z, face),
        face_exposed(chunk, others, x, y, z, face),
    ensures
        0 <= at.0 < visible_quads(chunk, neighbours, registry).len(),
        0 <= at.1 < visible_quads(chunk, others, registry).len(),
        visible_quads(chunk, neighbours, registry)[at.0] == visible_quads(chunk, others, registry)[at.1],
        visible_quads(chunk, neighbours, registry)[at.0].cell == (Int3 { x: x as i32, y: y as i32, z: z as i32 }),
        visible_quads(chunk, neighbours, registry)[at.0].face == face,
{
    let first = lemma_exposed_face_is_drawn(chunk, neighbours, registry, x, y, z, face);
    let second = lemma_exposed_face_is_drawn(chunk, others, registry, x, y, z, face);
    (first, second)
}

/// The cell beyond the chunk's edge is the cell at the opposite edge of
/// the neighbour: it differs from the cell in the one coordinate along the
/// face's normal, where `CHUNK_SIZE - 1` wraps to `0` and `0` to `CHUNK_SIZE - 1`.
pub proof fn lemma_wrapped_cell(x: int, y: int, z: int, face: Neighbour)
    requires
        cell_in_chunk(x, y, z),
        !cell_in_chunk(x + face.spec_normal().x, y + face.spec_normal().y, z + face.spec_normal().z),
    ensures
        ({
            let n = face.spec_normal();
            let (wx, wy, wz) = (
                (x + n.x) % (CHUNK_SIZE as int),
                (y + n.y) % (CHUNK_SIZE as int),
                (z + n.z) % (CHUNK_SIZE as int),
            );
            &&& cell_in_chunk(wx, wy, wz)
            &&& face == Neighbour::X ==> x == CHUNK_SIZE - 1 && (wx, wy, wz) == (0int, y, z)
            &&& face == Neighbour::NegX ==> x == 0 && (wx, wy, wz) == (CHUNK_SIZE - 1, y, z)
            &&& face == Neighbour::Y ==> y == CHUNK_SIZE - 1 && (wx, wy, wz) == (x, 0int, z)
            &&& face == Neighbour::NegY ==> y == 0 && (wx, wy, wz) == (x, CHUNK_SIZE - 1, z)
            &&& face == Neighbour::Z ==> z == CHUNK_SIZE - 1 && (wx, wy, wz) == (x, y, 0int)
            &&& face == Neighbour::NegZ ==> z == 0 && (wx, wy, wz) == (x, y, CHUNK_SIZE - 1)
        }),
{
}

/// The number of quads is the number of exposed faces.
pub proof fn lemma_quad_count_is_exposed_face_count(
    chunk: ChunkState,
    neighbours: NeighborStates,
    registry: Map<BlockId, BlockTiles>,
)
    ensures
        exposed_slots(chunk, neighbours).finite(),
        visible_quads(chunk, neighbours, registry).len() == exposed_slots(chunk, neighbours).len(),
        naive_mesh(chunk, neighbours, registry).positions.len() == 4 * exposed_slots(chunk, neighbours).len(),
        naive_mesh(chunk, neighbours, registry).indices.len() == 6 * exposed_slots(chunk, neighbours).len(),
{
    lemma_count_upto(chunk, neighbours, registry, SLOT_COUNT as nat);
    assert(exposed_slots(chunk, neighbours) =~= exposed_below(chunk, neighbours, SLOT_COUNT as int));
    lemma_mesh_of_quads_lengths(visible_quads(chunk, neighbours, registry));
}

/// The exposed faces among the first `n` positions of the scan order.
pub open spec fn exposed_below(chunk: ChunkState, neighbours: NeighborStates, n: int) -> Set<int> {
    Set::new(|slot: int| 0 <= slot < n && slot_exposed(chunk, neighbours, slot))
}

/// Among the first `n` positions there are as many quads as exposed faces.
proof fn lemma_count_upto(chunk: ChunkState, neighbours: NeighborStates, registry: Map<BlockId, BlockTiles>, n: nat)
    ensures
        exposed_below(chunk, neighbours, n as int).finite(),
        quads_upto(chunk, neighbours, registry, n).len() == exposed_below(chunk, neighbours, n as int).len(),
    decreases n,
{
    if n == 0 {
        assert(exposed_below(chunk, neighbours, 0) =~= Set::<int>::empty());
    } else {
        lemma_count_upto(chunk, neighbours, registry, (n - 1) as nat);
        let smaller = exposed_below(chunk, neighbours, n - 1);
        if slot_exposed(chunk, neighbours, n - 1) {
            assert(exposed_below(chunk, neighbours, n as int) =~= smaller.insert(n - 1));
        } else {
            assert(exposed_below(chunk, neighbours, n as int) =~= smaller);
        }
    }
}

/// Whether the chunk's solid cells are exactly the cells for which
/// `is_solid_cell` holds.
pub open spec fn solid_cells_are(chunk: ChunkState, is_solid_cell: spec_fn(int, int, int) -> bool) -> bool {
    forall|x: int, y: int, z: int| cell_in_chunk(x, y, z) ==> (#[trigger] chunk.solid_at(x, y, z) <==> is_solid_cell(x, y, z))
}

/// Whether no neighbour is loaded in any direction.
pub open spec fn no_neighbours(neighbours: NeighborStates) -> bool {
    &&& neighbours.len() == 6
    &&& forall|i: int| 0 <= i < 6 ==> #[trigger] neighbours[i] is None
}

/// The positions in scan order of the six faces of cell `(x, y, z)`.
pub open spec fn cell_slots(x: int, y: int, z: int) -> Set<int> {
    vstd::set_lib::set_int_range(slot_of(x, y, z, Neighbour::X), slot_of(x, y, z, Neighbour::X) + 6)
}

/// The direction that looks back at `direction`.
pub open spec fn opposite(direction: Neighbour) -> Neighbour {
    match direction {
        Neighbour::X => Neighbour::NegX,
        Neighbour::NegX => Neighbour::X,
        Neighbour::Y => Neighbour::NegY,
        Neighbour::NegY => Neighbour::Y,
        Neighbour::Z => Neighbour::NegZ,
        Neighbour::NegZ => Neighbour::Z,
    }
}

/// A single solid voxel in an otherwise empty chunk without neighbours
/// is drawn with six quads: 24 vertices and 36 indices.
#[verifier::rlimit(60)]
pub proof fn lemma_lone_voxel_has_six_quads(
    chunk: ChunkState,
    neighbours: NeighborStates,
    registry: Map<BlockId, BlockTiles>,
    x: int,
    y: int,
    z: int,
)
    requires
        chunk.wf(),
        no_neighbours(neighbours),
        cell_in_chunk(x, y, z),
        solid_cells_are(chunk, |cx: int, cy: int, cz: int| (cx, cy, cz) == (x, y, z)),
    ensures
        visible_quads(chunk, neighbours, registry).len() == 6,
        naive_mesh(chunk, neighbours, registry).positions.len() == 24,
        naive_mesh(chunk, neighbours, registry).indices.len() == 36,
{
    let first = slot_of(x, y, z, Neighbour::X);
    assert forall|slot: int| exposed_slots(chunk, neighbours).contains(slot) <==> cell_slots(x, y, z).contains(
        slot,
    ) by {
        if 0 <= slot < SLOT_COUNT {
            lemma_slot_decode(slot);
            let cell = slot_cell(slot);
            assert(chunk.solid_at(cell.x as int, cell.y as int, cell.z as int) <==> (
                cell.x as int,
                cell.y as int,
                cell.z as int,
            ) == (x, y, z));
            if first <= slot < first + 6 {
                let face = slot_face(slot);
                let n = face.spec_normal();
                if cell_in_chunk(x + n.x, y + n.y, z + n.z) {
                    assert(!chunk.solid_at(x + n.x, y + n.y, z + n.z));
                }
                assert(neighbours[face.spec_index()] is None);
            }
        }
    }
    assert(exposed_slots(chunk, neighbours) =~= cell_slots(x, y, z));
    vstd::set_lib::lemma_int_range(first, first + 6);
    lemma_quad_count_is_exposed_face_count(chunk, neighbours, registry);
}

/// Two solid voxels that share a face, in an otherwise empty chunk
/// without neighbours, are drawn with ten quads: the shared face is left
/// out on both sides.
#[verifier::rlimit(60)]
pub proof fn lemma_voxel_pair_has_ten_quads(
    chunk: ChunkState,
    neighbours: NeighborStates,
    registry: Map<BlockId, BlockTiles>,
    x: int,
    y: int,
    z: int,
    toward: Neighbour,
)
    requires
        chunk.wf(),
        no_neighbours(neighbours),
        cell_in_chunk(x, y, z),
        cell_in_chunk(x + toward.spec_normal().x, y + toward.spec_normal().y, z + toward.spec_normal().z),
        solid_cells_are(
            chunk,
            |cx: int, cy: int, cz: int|
                (cx, cy, cz) == (x, y, z) || (cx, cy, cz) == (
                    x + toward.spec_normal().x,
                    y + toward.spec_normal().y,
                    z + toward.spec_normal().z,
                ),
        ),
    ensures
        visible_quads(chunk, neighbours, registry).len() == 10,
        naive_mesh(chunk, neighbours, registry).positions.len() == 40,
        naive_mesh(chunk, neighbours, registry).indices.len() == 60,
{
    let n = toward.spec_normal();
    let (bx, by, bz) = (x + n.x, y + n.y, z + n.z);
    let first_a = slot_of(x, y, z, Neighbour::X);
    let first_b = slot_of(bx, by, bz, Neighbour::X);
    let hidden_a = slot_of(x, y, z, toward);
    let hidden_b = slot_of(bx, by, bz, opposite(toward));
    let both = cell_slots(x, y, z) + cell_slots(bx, by, bz);
    let drawn = both.remove(hidden_a).remove(hidden_b);
    assert forall|slot: int| exposed_slots(chunk, neighbours).contains(slot) <==> drawn.contains(slot) by {
        if 0 <= slot < SLOT_COUNT {
            lemma_slot_decode(slot);
            let cell = slot_cell(slot);
            let face = slot_face(slot);
            let m = face.spec_normal();
            let (cx, cy, cz) = (cell.x as int, cell.y as int, cell.z as int);
            assert(chunk.solid_at(cx, cy, cz) <==> ((cx, cy, cz) == (x, y, z) || (cx, cy, cz) == (bx, by, bz)));
            assert(neighbours[face.spec_index()] is None);
            if cell_in_chunk(cx + m.x, cy + m.y, cz + m.z) {
                assert(chunk.solid_at(cx + m.x, cy + m.y, cz + m.z) <==> ((cx + m.x, cy + m.y, cz + m.z) == (x, y, z)
                    || (cx + m.x, cy + m.y, cz + m.z) == (bx, by, bz)));
            }
        }
    }
    assert(exposed_slots(chunk, neighbours) =~= drawn);
    vstd::set_lib::lemma_int_range(first_a, first_a + 6);
    vstd::set_lib::lemma_int_range(first_b, first_b + 6);
    assert(cell_slots(x, y, z).disjoint(cell_slots(bx, by, bz)));
    vstd::set_lib::lemma_set_disjoint_lens(cell_slots(x, y, z), cell_slots(bx, by, bz));
    assert(both.contains(hidden_a));
    assert(both.remove(hidden_a).contains(hidden_b));
    lemma_quad_count_is_exposed_face_count(chunk, neighbours, registry);
}

/// Where each quad lies in the buffers: quad `k` owns vertices `4 k` to
/// `4 k + 3`, which are the corners of its face, carry the face's normal,
/// the texture coordinates of that normal and the quad's tile; and it
/// owns indices `6 k` to `6 k + 5`, which draw the triangles
/// `(0, 1, 2)` and `(0, 2, 3)` of those four vertices.
pub proof fn lemma_quad_layout(quads: Seq<Quad>, k: int, j: int, m: int)
    requires
        0 <= k < quads.len(),
        0 <= j < 4,
        0 <= m < 6,
    ensures
        mesh_of_quads(quads).positions[4 * k + j] == face_corners(quads[k].cell, quads[k].face)[j],
        mesh_of_quads(quads).normals[4 * k + j] == quads[k].face.spec_normal(),
        mesh_of_quads(quads).uvs[4 * k + j] == face_uvs_of(quads[k].face.spec_normal())[j],
        mesh_of_quads(quads).tile_ids[4 * k + j] == quads[k].tile as u32,
        mesh_of_quads(quads).indices[6 * k + m] == quad_indices(4 * k)[m],
    decreases quads.len(),
{
    lemma_mesh_of_quads_lengths(quads.drop_last());
    if k < quads.len() - 1 {
        lemma_quad_layout(quads.drop_last(), k, j, m);
    }
}

} // verus!
