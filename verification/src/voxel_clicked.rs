//! Editing: what a click on a picked voxel does to the world.

use vstd::prelude::*;

use crate::chunk::ChunkState;
use crate::coords::{chunk_of, local_of, world_cell_fits, world_of, Int3, CHUNK_SIZE};
use crate::voxel::Voxel;
use crate::voxel_picking::{VoxelFace, VoxelHit};
use crate::world::{chunk_at, ChunkEntityMap, Chunks, EntityId};

verus! {

/// The mouse button of a click.
#[derive(Copy, Clone, Debug, PartialEq, Eq, Structural)]
pub enum ClickButton {
    /// Places a voxel against the face that was hit.
    Left,
    /// Removes the voxel that was hit.
    Right,
    /// Any other button: no edit.
    Other,
}

/// A click on the voxel under the cursor.
#[derive(Copy, Clone, Debug, PartialEq, Eq, Structural)]
pub struct VoxelClicked {
    pub hit: VoxelHit,
    pub button: ClickButton,
}

/// The clicks to raise for one frame: none while no voxel is hovered;
/// otherwise one for the left button if it was just pressed, then one for
/// the right button if it was just pressed.
pub open spec fn click_events(hovered: Option<VoxelHit>, left: bool, right: bool) -> Seq<VoxelClicked> {
    match hovered {
        None => Seq::empty(),
        Some(hit) => (if left {
            seq![VoxelClicked { hit, button: ClickButton::Left }]
        } else {
            Seq::empty()
        }) + (if right {
            seq![VoxelClicked { hit, button: ClickButton::Right }]
        } else {
            Seq::empty()
        }),
    }
}

/// Turns this frame's mouse presses into clicks on the hovered voxel.
pub fn emit_voxel_click_event(
    hovered: Option<VoxelHit>,
    left_pressed: bool,
    right_pressed: bool,
) -> (events: Vec<VoxelClicked>)
    ensures
        events@ == click_events(hovered, left_pressed, right_pressed),
{
    let mut events: Vec<VoxelClicked> = Vec::new();
    let hit = match hovered {
        Some(hit) => hit,
        None => {
            return events;
        },
    };
    if left_pressed {
        events.push(VoxelClicked { hit, button: ClickButton::Left });
    }
    if right_pressed {
        events.push(VoxelClicked { hit, button: ClickButton::Right });
    }
    assert(events@ =~= click_events(hovered, left_pressed, right_pressed));
    events
}

/// The cell that touches face `hit.face` of the hit voxel, as chunk
/// coordinate and local position. One step along the face's normal stays
/// in the chunk, or wraps to the opposite edge of the next chunk in that
/// direction. `None` for a hit whose local position is no cell of a
/// chunk, and where the next chunk has no representable coordinate.
pub open spec fn adjacent_cell(hit: VoxelHit) -> Option<(Int3, Int3)> {
    let n = hit.face.spec_normal();
    let (x, y, z) = (hit.local.x + n.x, hit.local.y + n.y, hit.local.z + n.z);
    let shift = Int3 {
        x: if x < 0 {
            (-1) as i32
        } else if x >= CHUNK_SIZE {
            1i32
        } else {
            0i32
        },
        y: if y < 0 {
            (-1) as i32
        } else if y >= CHUNK_SIZE {
            1i32
        } else {
            0i32
        },
        z: if z < 0 {
            (-1) as i32
        } else if z >= CHUNK_SIZE {
            1i32
        } else {
            0i32
        },
    };
    if !hit.local.in_chunk() {
        None
    } else {
        match hit.chunk.spec_checked_add(shift) {
            Some(chunk) => Some(
                (
                    chunk,
                    Int3 {
                        x: (x - shift.x * CHUNK_SIZE) as i32,
                        y: (y - shift.y * CHUNK_SIZE) as i32,
                        z: (z - shift.z * CHUNK_SIZE) as i32,
                    },
                ),
            ),
            None => None,
        }
    }
}

/// Moves one coordinate a step and wraps it at the chunk's edges: the
/// wrapped coordinate and the shift of the chunk coordinate.
fn wrap_step(local: i32, step: i32) -> (wrapped: (i32, i32))
    requires
        0 <= local < CHUNK_SIZE,
        -1 <= step <= 1,
    ensures
        wrapped.1 == (if local + step < 0 {
            (-1) as i32
        } else if local + step >= CHUNK_SIZE {
            1i32
        } else {
            0i32
        }),
        wrapped.0 == local + step - wrapped.1 * CHUNK_SIZE,
        0 <= wrapped.0 < CHUNK_SIZE,
{
    let max: i32 = CHUNK_SIZE as i32 - 1;
    let moved: i32 = local + step;
    if moved < 0 {
        (max, -1)
    } else if moved > max {
        (0, 1)
    } else {
        (moved, 0)
    }
}

/// The cell in which a left click places its voxel.
pub fn adjacent_voxel(hit: VoxelHit) -> (cell: Option<(Int3, Int3)>)
    ensures
        cell == adjacent_cell(hit),
        cell matches Some((chunk, local)) ==> local.in_chunk(),
{
    let local = hit.local;
    let size: i32 = CHUNK_SIZE as i32;
    if local.x < 0 || local.y < 0 || local.z < 0 || local.x >= size || local.y >= size || local.z >= size {
        return None;
    }
    let normal = hit.face.normal_i();
    let (x, shift_x) = wrap_step(local.x, normal.x);
    let (y, shift_y) = wrap_step(local.y, normal.y);
    let (z, shift_z) = wrap_step(local.z, normal.z);
    match hit.chunk.checked_add(Int3::new(shift_x, shift_y, shift_z)) {
        Some(chunk) => Some((chunk, Int3::new(x, y, z))),
        None => None,
    }
}

/// The chunk store after `voxel` was written at cell `local` of the chunk
/// at `coord`. Where no chunk is loaded at `coord` nothing changes.
pub open spec fn with_voxel(
    chunks: Map<EntityId, ChunkState>,
    index: Map<Int3, EntityId>,
    coord: Int3,
    local: Int3,
    voxel: Voxel,
) -> Map<EntityId, ChunkState> {
    if index.contains_key(coord) && chunks.contains_key(index[coord]) {
        chunks.insert(index[coord], chunks[index[coord]].set(local.x as int, local.y as int, local.z as int, voxel))
    } else {
        chunks
    }
}

/// The chunk store after a click. A left click writes `placed` in the
/// cell against the hit face; a right click writes air in the hit cell;
/// any other button, and a hit whose local position is no cell of a
/// chunk, changes nothing.
pub open spec fn click_effect(
    chunks: Map<EntityId, ChunkState>,
    index: Map<Int3, EntityId>,
    event: VoxelClicked,
    placed: Voxel,
) -> Map<EntityId, ChunkState> {
    if !event.hit.local.in_chunk() {
        chunks
    } else {
        match event.button {
            ClickButton::Left => match adjacent_cell(event.hit) {
                Some((chunk, local)) => with_voxel(chunks, index, chunk, local, placed),
                None => chunks,
            },
            ClickButton::Right => with_voxel(chunks, index, event.hit.chunk, event.hit.local, Voxel::spec_air()),
            ClickButton::Other => chunks,
        }
    }
}

/// Writes `voxel` at cell `local` of the chunk loaded at `coord`, which
/// marks that chunk dirty.
pub fn write_voxel(coord: Int3, local: Int3, voxel: Voxel, chunk_map: &ChunkEntityMap, chunks: &mut Chunks)
    requires
        old(chunks).wf(),
        local.in_chunk(),
    ensures
        final(chunks).wf(),
        final(chunks)@ == with_voxel(old(chunks)@, chunk_map@, coord, local, voxel),
{
    let entity = match chunk_map.get(&coord) {
        Some(entity) => entity,
        None => {
            return ;
        },
    };
    match chunks.remove(entity) {
        Some(mut chunk) => {
            chunk.set(local.x as usize, local.y as usize, local.z as usize, voxel);
            chunks.insert(entity, chunk);
            assert(chunks@ =~= with_voxel(old(chunks)@, chunk_map@, coord, local, voxel));
        },
        None => {
            assert(chunks@ =~= old(chunks)@);
        },
    }
}

/// Applies a click to the world: a left click places `placed` in the cell
/// against the hit face, a right click clears the hit cell. The chunk that
/// is written to becomes dirty.
pub fn on_voxel_clicked(event: VoxelClicked, placed: Voxel, chunk_map: &ChunkEntityMap, chunks: &mut Chunks)
    requires
        old(chunks).wf(),
    ensures
        final(chunks).wf(),
        final(chunks)@ == click_effect(old(chunks)@, chunk_map@, event, placed),
{
    let hit = event.hit;
    let local = hit.local;
    let size: i32 = CHUNK_SIZE as i32;
    if local.x < 0 || local.y < 0 || local.z < 0 || local.x >= size || local.y >= size || local.z >= size {
        return ;
    }
    match event.button {
        ClickButton::Left => {
            match adjacent_voxel(hit) {
                Some((chunk, cell)) => write_voxel(chunk, cell, placed, chunk_map, chunks),
                None => {},
            }
        },
        ClickButton::Right => {
            write_voxel(hit.chunk, local, Voxel::air(), chunk_map, chunks);
        },
        ClickButton::Other => {},
    }
}

/// A click creates and removes no chunk: the store holds chunks under
/// the same entities before and after, so a consistent index stays
/// consistent.
pub proof fn lemma_click_keeps_chunks(
    chunks: Map<EntityId, ChunkState>,
    index: Map<Int3, EntityId>,
    event: VoxelClicked,
    placed: Voxel,
)
    ensures
        click_effect(chunks, index, event, placed).dom() == chunks.dom(),
        crate::world::index_consistent(index, chunks) ==> crate::world::index_consistent(
            index,
            click_effect(chunks, index, event, placed),
        ),
{
    let after = click_effect(chunks, index, event, placed);
    assert(after.dom() =~= chunks.dom());
    if crate::world::index_consistent(index, chunks) {
        assert forall|coord: Int3| #[trigger] index.contains_key(coord) implies after.contains_key(index[coord]) by {
            assert(chunks.dom().contains(index[coord]));
        }
    }
}

/// The adjacent cell is the neighbour in the world grid: where the hit
/// cell and the cell one step along the face's normal both have world
/// coordinates, the adjacent cell is that world cell, split into chunk
/// coordinate and local position.
pub proof fn lemma_adjacent_is_world_neighbour(hit: VoxelHit)
    requires
        hit.local.in_chunk(),
        world_cell_fits(hit.chunk, hit.local),
        world_of(hit.chunk, hit.local).spec_checked_add(hit.face.spec_normal()) is Some,
    ensures
        ({
            let beyond = world_of(hit.chunk, hit.local).spec_checked_add(hit.face.spec_normal())->Some_0;
            adjacent_cell(hit) == Some((chunk_of(beyond), local_of(beyond)))
        }),
{
}

/// A right click on a hit in a loaded chunk clears the hit voxel, marks
/// its chunk dirty and leaves every other cell of the chunk as it was.
pub proof fn lemma_right_click_clears(
    chunks: Map<EntityId, ChunkState>,
    index: Map<Int3, EntityId>,
    hit: VoxelHit,
    placed: Voxel,
    x: int,
    y: int,
    z: int,
)
    requires
        hit.local.in_chunk(),
        chunk_at(index, chunks, hit.chunk) matches Some(chunk) && chunk.wf(),
        crate::chunk::cell_in_chunk(x, y, z),
    ensures
        ({
            let after = click_effect(chunks, index, VoxelClicked { hit, button: ClickButton::Right }, placed);
            let before = chunk_at(index, chunks, hit.chunk)->Some_0;
            &&& chunk_at(index, after, hit.chunk) matches Some(chunk) && {
                &&& chunk.wf()
                &&& chunk.dirty
                &&& chunk.get(hit.local.x as int, hit.local.y as int, hit.local.z as int).spec_is_air()
                &&& (x, y, z) != (hit.local.x as int, hit.local.y as int, hit.local.z as int) ==> chunk.get(x, y, z)
                    == before.get(x, y, z)
            }
            &&& forall|entity: EntityId| entity != index[hit.chunk] ==> (after.contains_key(entity) <==> chunks.contains_key(entity))
            &&& forall|entity: EntityId| entity != index[hit.chunk] && chunks.contains_key(entity) ==> after[entity] == chunks[entity]
        }),
{
    let before = chunk_at(index, chunks, hit.chunk)->Some_0;
    crate::chunk::lemma_set_then_get(
        before,
        hit.local.x as int,
        hit.local.y as int,
        hit.local.z as int,
        Voxel::spec_air(),
        x,
        y,
        z,
    );
}

/// A left click on a hit places the voxel in the cell against the hit
/// face and marks the chunk of that cell dirty. For a hit on a top face
/// that cell is the one above: `local + (0, 1, 0)` in the same chunk, or
/// the bottom cell of the chunk above where the hit cell is at the top
/// of its chunk.
pub proof fn lemma_left_click_places(
    chunks: Map<EntityId, ChunkState>,
    index: Map<Int3, EntityId>,
    hit: VoxelHit,
    placed: Voxel,
)
    requires
        hit.local.in_chunk(),
        adjacent_cell(hit) matches Some((coord, local)) && (chunk_at(index, chunks, coord) matches Some(chunk)
            && chunk.wf()),
    ensures
        ({
            let after = click_effect(chunks, index, VoxelClicked { hit, button: ClickButton::Left }, placed);
            let (coord, local) = adjacent_cell(hit)->Some_0;
            &&& local.in_chunk()
            &&& chunk_at(index, after, coord) matches Some(chunk) && {
                &&& chunk.wf()
                &&& chunk.dirty
                &&& chunk.get(local.x as int, local.y as int, local.z as int) == placed
            }
            &&& hit.face == VoxelFace::PosY && hit.local.y < CHUNK_SIZE - 1 ==> coord == hit.chunk && local == (Int3 {
                x: hit.local.x,
                y: (hit.local.y + 1) as i32,
                z: hit.local.z,
            })
            &&& hit.face == VoxelFace::PosY && hit.local.y == CHUNK_SIZE - 1 ==> coord == (Int3 {
                x: hit.chunk.x,
                y: (hit.chunk.y + 1) as i32,
                z: hit.chunk.z,
            }) && local == (Int3 { x: hit.local.x, y: 0, z: hit.local.z })
        }),
{
}

} // verus!
