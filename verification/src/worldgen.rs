//! The fixed test world: a slab of ground under two layers of empty chunks.

use vstd::prelude::*;

use crate::blocks::{BLOCK_DIRT, BLOCK_GRASS};
use crate::chunk::{cell_in_chunk, flat_index, Chunk, ChunkState};
use crate::coords::{Int3, CHUNK_SIZE, CHUNK_VOLUME};
use crate::voxel::Voxel;

verus! {

/// The test world reaches this many chunks from the origin along X and Z.
pub const MAP_HALF_SIZE: i32 = 2;

/// Height of the ground in the lowest layer of chunks, in voxels.
pub const MAP_GROUND_HEIGHT: usize = 16;

/// Number of layers of chunks in the test world.
pub const MAP_LAYERS: i32 = 3;

/// Number of chunks in the test world.
pub const MAP_CHUNK_COUNT: usize = 48;

/// The voxel at height `y` of a ground chunk: dirt below the surface,
/// grass at the surface, air above.
pub open spec fn ground_voxel(y: int) -> Voxel {
    if y < MAP_GROUND_HEIGHT - 1 {
        Voxel::spec_new(BLOCK_DIRT)
    } else if y == MAP_GROUND_HEIGHT - 1 {
        Voxel::spec_new(BLOCK_GRASS)
    } else {
        Voxel::spec_air()
    }
}

/// The state of a ground chunk: every column holds the ground, and the
/// chunk is dirty.
pub open spec fn ground_state() -> ChunkState {
    ChunkState {
        voxels: Seq::new(
            CHUNK_VOLUME as nat,
            |i: int| ground_voxel((i / (CHUNK_SIZE as int)) % (CHUNK_SIZE as int)),
        ),
        dirty: true,
    }
}

/// The chunk coordinate of the `k`-th chunk of the test world: layers
/// from the bottom up, and in each layer X before Z.
pub open spec fn seed_coord(k: int) -> Int3 {
    Int3 {
        x: ((k / (2 * MAP_HALF_SIZE)) % (2 * MAP_HALF_SIZE) - MAP_HALF_SIZE) as i32,
        y: (k / (4 * MAP_HALF_SIZE * MAP_HALF_SIZE)) as i32,
        z: (k % (2 * MAP_HALF_SIZE) - MAP_HALF_SIZE) as i32,
    }
}

/// The state of the test world's chunk at `coord`: ground in the lowest
/// layer, air in the layers above.
pub open spec fn seed_state(coord: Int3) -> ChunkState {
    if coord.y == 0 {
        ground_state()
    } else {
        ChunkState::fresh()
    }
}

/// A chunk filled with ground: dirt up to the surface and grass on it.
#[verifier::rlimit(60)]
pub fn ground_chunk() -> (chunk: Chunk)
    ensures
        chunk@ == ground_state(),
        chunk.wf(),
{
    let mut chunk = Chunk::new();
    let dirt = Voxel::new(BLOCK_DIRT);
    let grass = Voxel::new(BLOCK_GRASS);
    let mut x: usize = 0;
    while x < CHUNK_SIZE
        invariant
            x <= CHUNK_SIZE,
            chunk.wf(),
            chunk@.dirty,
            dirt == Voxel::spec_new(BLOCK_DIRT),
            grass == Voxel::spec_new(BLOCK_GRASS),
            forall|cx: int, cy: int, cz: int|
                cell_in_chunk(cx, cy, cz) ==> #[trigger] chunk@.get(cx, cy, cz) == (if cx < x {
                    ground_voxel(cy)
                } else {
                    Voxel::spec_air()
                }),
        decreases CHUNK_SIZE - x,
    {
        let mut z: usize = 0;
        while z < CHUNK_SIZE
            invariant
                x < CHUNK_SIZE,
                z <= CHUNK_SIZE,
                chunk.wf(),
                chunk@.dirty,
                dirt == Voxel::spec_new(BLOCK_DIRT),
                grass == Voxel::spec_new(BLOCK_GRASS),
                forall|cx: int, cy: int, cz: int|
                    cell_in_chunk(cx, cy, cz) ==> #[trigger] chunk@.get(cx, cy, cz) == (if cx < x || (cx == x && cz
                        < z) {
                        ground_voxel(cy)
                    } else {
                        Voxel::spec_air()
                    }),
            decreases CHUNK_SIZE - z,
        {
            let mut y: usize = 0;
            while y < MAP_GROUND_HEIGHT - 1
                invariant
                    x < CHUNK_SIZE,
                    z < CHUNK_SIZE,
                    y <= MAP_GROUND_HEIGHT - 1,
                    chunk.wf(),
                    chunk@.dirty,
                    dirt == Voxel::spec_new(BLOCK_DIRT),
                    grass == Voxel::spec_new(BLOCK_GRASS),
                    forall|cx: int, cy: int, cz: int|
                        cell_in_chunk(cx, cy, cz) ==> #[trigger] chunk@.get(cx, cy, cz) == (if cx < x || (cx == x
                            && cz < z) || (cx == x && cz == z && cy < y) {
                            ground_voxel(cy)
                        } else {
                            Voxel::spec_air()
                        }),
                decreases MAP_GROUND_HEIGHT - 1 - y,
            {
                let ghost before = chunk@;
                chunk.set(x, y, z, dirt);
                proof {
                    assert forall|cx: int, cy: int, cz: int| cell_in_chunk(cx, cy, cz) implies #[trigger] chunk@.get(
                        cx,
                        cy,
                        cz,
                    ) == (if cx < x || (cx == x && cz < z) || (cx == x && cz == z && cy < y + 1) {
                        ground_voxel(cy)
                    } else {
                        Voxel::spec_air()
                    }) by {
                        crate::chunk::lemma_set_then_get(before, x as int, y as int, z as int, dirt, cx, cy, cz);
                        assert(before.get(cx, cy, cz) == (if cx < x || (cx == x && cz < z) || (cx == x && cz == z
                            && cy < y) {
                            ground_voxel(cy)
                        } else {
                            Voxel::spec_air()
                        }));
                    }
                }
                y += 1;
            }
            let ghost before = chunk@;
            chunk.set(x, MAP_GROUND_HEIGHT - 1, z, grass);
            proof {
                assert forall|cx: int, cy: int, cz: int| cell_in_chunk(cx, cy, cz) implies #[trigger] chunk@.get(
                    cx,
                    cy,
                    cz,
                ) == (if cx < x || (cx == x && cz < z + 1) {
                    ground_voxel(cy)
                } else {
                    Voxel::spec_air()
                }) by {
                    crate::chunk::lemma_set_then_get(
                        before,
                        x as int,
                        MAP_GROUND_HEIGHT as int - 1,
                        z as int,
                        grass,
                        cx,
                        cy,
                        cz,
                    );
                    assert(before.get(cx, cy, cz) == (if cx < x || (cx == x && cz < z) || (cx == x && cz == z && cy
                        < MAP_GROUND_HEIGHT - 1) {
                        ground_voxel(cy)
                    } else {
                        Voxel::spec_air()
                    }));
                }
            }
            z += 1;
        }
        x += 1;
    }
    proof {
        assert forall|i: int| 0 <= i < CHUNK_VOLUME implies chunk@.voxels[i] == ground_state().voxels[i] by {
            let cx = i % (CHUNK_SIZE as int);
            let cy = (i / (CHUNK_SIZE as int)) % (CHUNK_SIZE as int);
            let cz = i / (CHUNK_SIZE as int) / (CHUNK_SIZE as int);
            assert(flat_index(cx, cy, cz) == i);
            assert(chunk@.get(cx, cy, cz) == ground_voxel(cy));
        }
        assert(chunk@.voxels =~= ground_state().voxels);
    }
    chunk
}

/// The chunks of the test world with their chunk coordinates: three
/// layers of four by four chunks, the lowest filled with ground.
pub fn spawn_test_chunks() -> (world: Vec<(Int3, Chunk)>)
    ensures
        world.len() == MAP_CHUNK_COUNT,
        forall|k: int|
            0 <= k < MAP_CHUNK_COUNT ==> {
                &&& (#[trigger] world[k]).0 == seed_coord(k)
                &&& world[k].1@ == seed_state(seed_coord(k))
                &&& world[k].1.wf()
            },
{
    let mut world: Vec<(Int3, Chunk)> = Vec::new();
    let mut layer: i32 = 0;
    while layer < MAP_LAYERS
        invariant
            0 <= layer <= MAP_LAYERS,
            world.len() == 16 * layer,
            forall|k: int|
                0 <= k < world.len() ==> {
                    &&& (#[trigger] world[k]).0 == seed_coord(k)
                    &&& world[k].1@ == seed_state(seed_coord(k))
                    &&& world[k].1.wf()
                },
        decreases MAP_LAYERS - layer,
    {
        let mut chunk_x: i32 = -MAP_HALF_SIZE;
        while chunk_x < MAP_HALF_SIZE
            invariant
                0 <= layer < MAP_LAYERS,
                -MAP_HALF_SIZE <= chunk_x <= MAP_HALF_SIZE,
                world.len() == 16 * layer + 4 * (chunk_x + MAP_HALF_SIZE),
                forall|k: int|
                    0 <= k < world.len() ==> {
                        &&& (#[trigger] world[k]).0 == seed_coord(k)
                        &&& world[k].1@ == seed_state(seed_coord(k))
                        &&& world[k].1.wf()
                    },
            decreases MAP_HALF_SIZE - chunk_x,
        {
            let mut chunk_z: i32 = -MAP_HALF_SIZE;
            while chunk_z < MAP_HALF_SIZE
                invariant
                    0 <= layer < MAP_LAYERS,
                    -MAP_HALF_SIZE <= chunk_x < MAP_HALF_SIZE,
                    -MAP_HALF_SIZE <= chunk_z <= MAP_HALF_SIZE,
                    world.len() == 16 * layer + 4 * (chunk_x + MAP_HALF_SIZE) + (chunk_z + MAP_HALF_SIZE),
                    forall|k: int|
                        0 <= k < world.len() ==> {
                            &&& (#[trigger] world[k]).0 == seed_coord(k)
                            &&& world[k].1@ == seed_state(seed_coord(k))
                            &&& world[k].1.wf()
                        },
                decreases MAP_HALF_SIZE - chunk_z,
            {
                let chunk = if layer == 0 {
                    ground_chunk()
                } else {
                    Chunk::new()
                };
                let ghost before = world@;
                world.push((Int3::new(chunk_x, layer, chunk_z), chunk));
                proof {
                    assert forall|k: int| 0 <= k < world.len() implies {
                        &&& (#[trigger] world[k]).0 == seed_coord(k)
                        &&& world[k].1@ == seed_state(seed_coord(k))
                        &&& world[k].1.wf()
                    } by {
                        if k < before.len() {
                            assert(world[k] == before[k]);
                        }
                    }
                }
                chunk_z += 1;
            }
            chunk_x += 1;
        }
        layer += 1;
    }
    world
}

} // verus!
