//! Picking: walking a ray through the voxel grid to the first solid cell.
//!
//! A ray crosses grid planes in an order that depends on the ray alone.
//! The caller measures the distances to the next planes along the ray and
//! asks [`next_crossing`] which plane comes next and whether it is still
//! within reach; the axes it gets make up the order of crossings. The
//! walk through the cells in that order, the test of each cell and the
//! face that is reported happen in [`pick_voxel_dda`].

use vstd::prelude::*;

use crate::chunk::ChunkState;
use crate::coords::{chunk_of, local_of, world_to_chunk_local, Int3};
use crate::meshers::Neighbour;
use crate::world::{chunk_at, loaded_chunk, ChunkEntityMap, Chunks, EntityId};

verus! {

/// The face of a voxel through which a ray entered it.
#[derive(Copy, Clone, Debug, PartialEq, Eq, Structural)]
pub enum VoxelFace {
    PosX,
    NegX,
    PosY,
    NegY,
    PosZ,
    NegZ,
}

impl VoxelFace {
    /// The unit vector that points out of the face.
    pub open spec fn spec_normal(self) -> Int3 {
        match self {
            VoxelFace::PosX => Int3 { x: 1, y: 0, z: 0 },
            VoxelFace::NegX => Int3 { x: (-1) as i32, y: 0, z: 0 },
            VoxelFace::PosY => Int3 { x: 0, y: 1, z: 0 },
            VoxelFace::NegY => Int3 { x: 0, y: (-1) as i32, z: 0 },
            VoxelFace::PosZ => Int3 { x: 0, y: 0, z: 1 },
            VoxelFace::NegZ => Int3 { x: 0, y: 0, z: (-1) as i32 },
        }
    }

    /// The face as a direction of the grid.
    pub open spec fn spec_direction(self) -> Neighbour {
        match self {
            VoxelFace::PosX => Neighbour::X,
            VoxelFace::NegX => Neighbour::NegX,
            VoxelFace::PosY => Neighbour::Y,
            VoxelFace::NegY => Neighbour::NegY,
            VoxelFace::PosZ => Neighbour::Z,
            VoxelFace::NegZ => Neighbour::NegZ,
        }
    }

    /// The face as a direction of the grid: the direction with the same normal.
    pub fn direction(self) -> (d: Neighbour)
        ensures
            d == self.spec_direction(),
            d.spec_normal() == self.spec_normal(),
    {
        match self {
            VoxelFace::PosX => Neighbour::X,
            VoxelFace::NegX => Neighbour::NegX,
            VoxelFace::PosY => Neighbour::Y,
            VoxelFace::NegY => Neighbour::NegY,
            VoxelFace::PosZ => Neighbour::Z,
            VoxelFace::NegZ => Neighbour::NegZ,
        }
    }

    /// The unit vector that points out of the face.
    pub fn normal_i(self) -> (n: Int3)
        ensures
            n == self.spec_normal(),
            n.is_unit_normal(),
    {
        match self {
            VoxelFace::PosX => Int3::new(1, 0, 0),
            VoxelFace::NegX => Int3::new(-1, 0, 0),
            VoxelFace::PosY => Int3::new(0, 1, 0),
            VoxelFace::NegY => Int3::new(0, -1, 0),
            VoxelFace::PosZ => Int3::new(0, 0, 1),
            VoxelFace::NegZ => Int3::new(0, 0, -1),
        }
    }
}

/// The result of picking: the voxel under the cursor and the face hit.
#[derive(Copy, Clone, Debug, PartialEq, Eq, Structural)]
pub struct VoxelHit {
    /// Coordinate of the chunk that holds the voxel.
    pub chunk: Int3,
    /// Position of the voxel inside its chunk, each component in `[0, CHUNK_SIZE)`.
    pub local: Int3,
    /// World coordinate of the voxel.
    pub world: Int3,
    /// The face that was hit.
    pub face: VoxelFace,
}

/// The hit on face `face` of world cell `world_cell`.
pub open spec fn hit_at(world_cell: Int3, face: VoxelFace) -> VoxelHit {
    VoxelHit { chunk: chunk_of(world_cell), local: local_of(world_cell), world: world_cell, face }
}

/// Builds the hit on face `face` of world cell `world_cell`.
pub fn build_hit(world_cell: Int3, face: VoxelFace) -> (hit: VoxelHit)
    ensures
        hit == hit_at(world_cell, face),
        hit.local.in_chunk(),
{
    let (chunk, local) = world_to_chunk_local(world_cell);
    VoxelHit { chunk, local, world: world_cell, face }
}

/// Whether world cell `cell` is solid: its chunk is loaded and holds a
/// solid voxel at the cell's local position. Cells of chunks that are not
/// loaded are not solid.
pub open spec fn world_solid(index: Map<Int3, EntityId>, chunks: Map<EntityId, ChunkState>, cell: Int3) -> bool {
    match chunk_at(index, chunks, chunk_of(cell)) {
        Some(chunk) => chunk.solid_at(local_of(cell).x as int, local_of(cell).y as int, local_of(cell).z as int),
        None => false,
    }
}

/// Whether world cell `world_cell` is solid.
pub fn is_solid(world_cell: Int3, map: &ChunkEntityMap, chunks: &Chunks) -> (solid: bool)
    requires
        chunks.wf(),
    ensures
        solid == world_solid(map@, chunks@, world_cell),
{
    let (chunk_coord, local) = world_to_chunk_local(world_cell);
    match loaded_chunk(chunk_coord, map, chunks) {
        Some(chunk) => !chunk.get(local.x as usize, local.y as usize, local.z as usize).is_air(),
        None => false,
    }
}

/// One of the three grid axes.
#[derive(Copy, Clone, Debug, PartialEq, Eq, Structural)]
pub enum Axis {
    X,
    Y,
    Z,
}

/// The step a ray takes along one axis: `1` where its direction is
/// positive, `-1` where it is negative, `0` where it does not move.
pub fn ray_step(positive: bool, negative: bool) -> (step: i32)
    ensures
        step == (if positive {
            1i32
        } else if negative {
            (-1) as i32
        } else {
            0i32
        }),
{
    if positive {
        1
    } else if negative {
        -1
    } else {
        0
    }
}

/// The axis whose next grid plane is nearest, told from how the three
/// distances compare. Ties go to X before Y before Z.
pub open spec fn nearest_axis_of(x_le_y: bool, x_le_z: bool, y_le_z: bool) -> Axis {
    if x_le_y && x_le_z {
        Axis::X
    } else if y_le_z {
        Axis::Y
    } else {
        Axis::Z
    }
}

/// Chooses the axis along which a ray crosses its next grid plane.
/// `x_le_y` says that the distance to the next plane across X is at most
/// the distance to the next plane across Y, and so on.
pub fn nearest_axis(x_le_y: bool, x_le_z: bool, y_le_z: bool) -> (axis: Axis)
    ensures
        axis == nearest_axis_of(x_le_y, x_le_z, y_le_z),
{
    if x_le_y && x_le_z {
        Axis::X
    } else if y_le_z {
        Axis::Y
    } else {
        Axis::Z
    }
}

/// The next plane a ray crosses within its reach: the nearest axis, where
/// the plane across that axis is within reach, and otherwise none.
pub open spec fn next_crossing_of(
    x_le_y: bool,
    x_le_z: bool,
    y_le_z: bool,
    x_in_reach: bool,
    y_in_reach: bool,
    z_in_reach: bool,
) -> Option<Axis> {
    let axis = nearest_axis_of(x_le_y, x_le_z, y_le_z);
    let in_reach = match axis {
        Axis::X => x_in_reach,
        Axis::Y => y_in_reach,
        Axis::Z => z_in_reach,
    };
    if in_reach {
        Some(axis)
    } else {
        None
    }
}

/// Decides how a ray goes on: across which axis it crosses its next grid
/// plane, or that it ends because that plane lies beyond its reach. The
/// first three arguments compare the distances to the next planes as for
/// [`nearest_axis`]; `x_in_reach` says that the distance to the next plane
/// across X is at most the ray's reach, and so on. A ray is followed only
/// as long as this gives an axis, so that no cell is entered beyond the reach.
pub fn next_crossing(
    x_le_y: bool,
    x_le_z: bool,
    y_le_z: bool,
    x_in_reach: bool,
    y_in_reach: bool,
    z_in_reach: bool,
) -> (axis: Option<Axis>)
    ensures
        axis == next_crossing_of(x_le_y, x_le_z, y_le_z, x_in_reach, y_in_reach, z_in_reach),
{
    let axis = nearest_axis(x_le_y, x_le_z, y_le_z);
    let in_reach = match axis {
        Axis::X => x_in_reach,
        Axis::Y => y_in_reach,
        Axis::Z => z_in_reach,
    };
    if in_reach {
        Some(axis)
    } else {
        None
    }
}

/// The face through which a ray enters a cell when it crosses a plane
/// across `axis`: the face that looks back along the ray.
pub open spec fn entered_face(axis: Axis, step: Int3) -> VoxelFace {
    match axis {
        Axis::X => if step.x > 0 {
            VoxelFace::NegX
        } else {
            VoxelFace::PosX
        },
        Axis::Y => if step.y > 0 {
            VoxelFace::NegY
        } else {
            VoxelFace::PosY
        },
        Axis::Z => if step.z > 0 {
            VoxelFace::NegZ
        } else {
            VoxelFace::PosZ
        },
    }
}

/// The cell a ray is in after it crossed a plane across `axis`, or `None`
/// where that cell has no representable coordinate.
pub open spec fn crossed(cell: Int3, step: Int3, axis: Axis) -> Option<Int3> {
    match axis {
        Axis::X => cell.spec_checked_add(Int3 { x: step.x, y: 0, z: 0 }),
        Axis::Y => cell.spec_checked_add(Int3 { x: 0, y: step.y, z: 0 }),
        Axis::Z => cell.spec_checked_add(Int3 { x: 0, y: 0, z: step.z }),
    }
}

/// Moves a ray across one grid plane: the cell it enters and the face it
/// enters through.
pub fn cross_plane(cell: Int3, step: Int3, axis: Axis) -> (next: Option<(Int3, VoxelFace)>)
    ensures
        next == (match crossed(cell, step, axis) {
            Some(entered) => Some((entered, entered_face(axis, step))),
            None => None,
        }),
{
    let (offset, face) = match axis {
        Axis::X => (
            Int3::new(step.x, 0, 0),
            if step.x > 0 {
                VoxelFace::NegX
            } else {
                VoxelFace::PosX
            },
        ),
        Axis::Y => (
            Int3::new(0, step.y, 0),
            if step.y > 0 {
                VoxelFace::NegY
            } else {
                VoxelFace::PosY
            },
        ),
        Axis::Z => (
            Int3::new(0, 0, step.z),
            if step.z > 0 {
                VoxelFace::NegZ
            } else {
                VoxelFace::PosZ
            },
        ),
    };
    match cell.checked_add(offset) {
        Some(entered) => Some((entered, face)),
        None => None,
    }
}

/// The walk from `cell`, entered through `face`, along the crossings from
/// position `i` on: the hit on the first solid cell, or `None` when the
/// crossings run out or leave the representable grid first.
pub open spec fn walk_from(
    index: Map<Int3, EntityId>,
    chunks: Map<EntityId, ChunkState>,
    cell: Int3,
    face: VoxelFace,
    step: Int3,
    crossings: Seq<Axis>,
    i: int,
) -> Option<VoxelHit>
    decreases crossings.len() - i,
{
    if world_solid(index, chunks, cell) {
        Some(hit_at(cell, face))
    } else if 0 <= i < crossings.len() {
        match crossed(cell, step, crossings[i]) {
            Some(entered) => walk_from(
                index,
                chunks,
                entered,
                entered_face(crossings[i], step),
                step,
                crossings,
                i + 1,
            ),
            None => None,
        }
    } else {
        None
    }
}

/// What picking reports for a ray that starts in cell `origin`, moves by
/// `step` and crosses grid planes in the order `crossings`. A ray without
/// direction hits nothing. Otherwise the starting cell is tested first,
/// and if it is solid the hit names its top face; then the ray is walked
/// cell by cell to the first solid one.
pub open spec fn pick_result(
    index: Map<Int3, EntityId>,
    chunks: Map<EntityId, ChunkState>,
    origin: Int3,
    step: Int3,
    crossings: Seq<Axis>,
) -> Option<VoxelHit> {
    if step == (Int3 { x: 0, y: 0, z: 0 }) {
        None
    } else {
        walk_from(index, chunks, origin, VoxelFace::PosY, step, crossings, 0)
    }
}

/// Finds the first solid voxel along a ray and the face the ray entered
/// it through.
pub fn pick_voxel_dda(
    origin: Int3,
    step: Int3,
    crossings: &Vec<Axis>,
    map: &ChunkEntityMap,
    chunks: &Chunks,
) -> (hit: Option<VoxelHit>)
    requires
        chunks.wf(),
    ensures
        hit == pick_result(map@, chunks@, origin, step, crossings@),
{
    if step.x == 0 && step.y == 0 && step.z == 0 {
        return None;
    }
    let mut cell = origin;
    let mut entered: Option<VoxelFace> = None;
    let mut i: usize = 0;
    loop
        invariant
            chunks.wf(),
            i <= crossings.len(),
            pick_result(map@, chunks@, origin, step, crossings@) == walk_from(
                map@,
                chunks@,
                cell,
                match entered {
                    Some(face) => face,
                    None => VoxelFace::PosY,
                },
                step,
                crossings@,
                i as int,
            ),
        decreases crossings.len() - i,
    {
        if is_solid(cell, map, chunks) {
            let face = match entered {
                Some(face) => face,
                None => VoxelFace::PosY,
            };
            return Some(build_hit(cell, face));
        }
        if i >= crossings.len() {
            return None;
        }
        match cross_plane(cell, step, crossings[i]) {
            Some((next, face)) => {
                cell = next;
                entered = Some(face);
            },
            None => {
                return None;
            },
        }
        i += 1;
    }
}

/// The cell a ray is in after its first `k` crossings, or `None` where
/// the ray has left the representable grid by then.
pub open spec fn path_cell(origin: Int3, step: Int3, crossings: Seq<Axis>, k: nat) -> Option<Int3>
    decreases k,
{
    if k == 0 {
        Some(origin)
    } else {
        match path_cell(origin, step, crossings, (k - 1) as nat) {
            Some(cell) => crossed(cell, step, crossings[k - 1]),
            None => None,
        }
    }
}

/// The face through which the ray entered the cell it is in after `k`
/// crossings. The starting cell was entered through no face and counts
/// as hit from above.
pub open spec fn path_face(step: Int3, crossings: Seq<Axis>, k: nat) -> VoxelFace {
    if k == 0 {
        VoxelFace::PosY
    } else {
        entered_face(crossings[k - 1], step)
    }
}

/// Whether the cell the ray is in after `k` crossings exists and is solid.
pub open spec fn path_solid(
    index: Map<Int3, EntityId>,
    chunks: Map<EntityId, ChunkState>,
    origin: Int3,
    step: Int3,
    crossings: Seq<Axis>,
    k: nat,
) -> bool {
    match path_cell(origin, step, crossings, k) {
        Some(cell) => world_solid(index, chunks, cell),
        None => false,
    }
}

/// The walk from the cell reached after `i` crossings finds the first
/// solid cell of the path, given that no earlier cell of the path is solid.
proof fn lemma_walk_finds_first(
    index: Map<Int3, EntityId>,
    chunks: Map<EntityId, ChunkState>,
    origin: Int3,
    step: Int3,
    crossings: Seq<Axis>,
    cell: Int3,
    i: nat,
) -> (k: nat)
    requires
        i <= crossings.len(),
        path_cell(origin, step, crossings, i) == Some(cell),
        forall|j: nat| j < i ==> !path_solid(index, chunks, origin, step, crossings, j),
    ensures
        walk_from(index, chunks, cell, path_face(step, crossings, i), step, crossings, i as int) matches Some(hit)
            ==> {
            &&& k <= crossings.len()
            &&& path_cell(origin, step, crossings, k) == Some(hit.world)
            &&& hit == hit_at(hit.world, path_face(step, crossings, k))
            &&& world_solid(index, chunks, hit.world)
            &&& forall|j: nat| j < k ==> !path_solid(index, chunks, origin, step, crossings, j)
        },
        walk_from(index, chunks, cell, path_face(step, crossings, i), step, crossings, i as int) is None
            ==> forall|j: nat| j <= crossings.len() ==> !path_solid(index, chunks, origin, step, crossings, j),
    decreases crossings.len() - i,
{
    if world_solid(index, chunks, cell) {
        i
    } else if i < crossings.len() {
        match crossed(cell, step, crossings[i as int]) {
            Some(entered) => {
                assert(path_cell(origin, step, crossings, i + 1) == Some(entered));
                assert forall|j: nat| j < i + 1 implies !path_solid(index, chunks, origin, step, crossings, j) by {
                    if j == i {
                    }
                }
                lemma_walk_finds_first(index, chunks, origin, step, crossings, entered, i + 1)
            },
            None => {
                assert forall|j: nat| j <= crossings.len() implies !path_solid(
                    index,
                    chunks,
                    origin,
                    step,
                    crossings,
                    j,
                ) by {
                    if j > i {
                        lemma_path_ends(origin, step, crossings, i + 1, j);
                    }
                }
                0
            },
        }
    } else {
        assert forall|j: nat| j <= crossings.len() implies !path_solid(index, chunks, origin, step, crossings, j) by {
            if j == i {
            }
        }
        0
    }
}

/// Once a ray has left the representable grid it does not come back.
proof fn lemma_path_ends(origin: Int3, step: Int3, crossings: Seq<Axis>, k: nat, j: nat)
    requires
        k <= j,
        path_cell(origin, step, crossings, k) is None,
    ensures
        path_cell(origin, step, crossings, j) is None,
    decreases j,
{
    if k < j {
        lemma_path_ends(origin, step, crossings, k, (j - 1) as nat);
    }
}

/// Picking reports the first solid cell on the ray's path. A hit names a
/// cell of the path that is solid, with the face the ray entered it
/// through, and no cell before it on the path is solid. No hit means that
/// no cell of the path is solid.
pub proof fn lemma_pick_is_first_solid(
    index: Map<Int3, EntityId>,
    chunks: Map<EntityId, ChunkState>,
    origin: Int3,
    step: Int3,
    crossings: Seq<Axis>,
) -> (k: nat)
    requires
        step != (Int3 { x: 0, y: 0, z: 0 }),
    ensures
        pick_result(index, chunks, origin, step, crossings) matches Some(hit) ==> {
            &&& k <= crossings.len()
            &&& path_cell(origin, step, crossings, k) == Some(hit.world)
            &&& hit == hit_at(hit.world, path_face(step, crossings, k))
            &&& world_solid(index, chunks, hit.world)
            &&& forall|j: nat| j < k ==> !path_solid(index, chunks, origin, step, crossings, j)
        },
        pick_result(index, chunks, origin, step, crossings) is None ==> forall|j: nat|
            j <= crossings.len() ==> !path_solid(index, chunks, origin, step, crossings, j),
{
    lemma_walk_finds_first(index, chunks, origin, step, crossings, origin, 0)
}

} // verus!
