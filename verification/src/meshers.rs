//! Face directions, the view of a chunk's six neighbours, and the
//! interface every meshing strategy implements.

use vstd::prelude::*;

use crate::blocks::{BlockId, BlockRegistry, BlockTiles};
use crate::chunk::{Chunk, ChunkState};
use crate::coords::Int3;
use crate::mesh::{MeshBuffers, MeshState};
use crate::naive_mesher::blocks_registered;

verus! {

/// One of the six face directions of a voxel, which is also the direction
/// of the chunk that lies beyond that face.
#[derive(Copy, Clone, Debug, PartialEq, Eq, Structural)]
pub enum Neighbour {
    X,
    NegX,
    Y,
    NegY,
    Z,
    NegZ,
}

impl Neighbour {
    /// Position of the direction in the fixed order +X, -X, +Y, -Y, +Z, -Z.
    pub open spec fn spec_index(self) -> int {
        match self {
            Neighbour::X => 0,
            Neighbour::NegX => 1,
            Neighbour::Y => 2,
            Neighbour::NegY => 3,
            Neighbour::Z => 4,
            Neighbour::NegZ => 5,
        }
    }

    /// The direction at position `i` of the fixed order.
    pub open spec fn from_index(i: int) -> Neighbour {
        if i == 0 {
            Neighbour::X
        } else if i == 1 {
            Neighbour::NegX
        } else if i == 2 {
            Neighbour::Y
        } else if i == 3 {
            Neighbour::NegY
        } else if i == 4 {
            Neighbour::Z
        } else {
            Neighbour::NegZ
        }
    }

    /// The unit vector that points out of the face.
    pub open spec fn spec_normal(self) -> Int3 {
        match self {
            Neighbour::X => Int3 { x: 1, y: 0, z: 0 },
            Neighbour::NegX => Int3 { x: (-1) as i32, y: 0, z: 0 },
            Neighbour::Y => Int3 { x: 0, y: 1, z: 0 },
            Neighbour::NegY => Int3 { x: 0, y: (-1) as i32, z: 0 },
            Neighbour::Z => Int3 { x: 0, y: 0, z: 1 },
            Neighbour::NegZ => Int3 { x: 0, y: 0, z: (-1) as i32 },
        }
    }

    /// The direction whose normal is `normal`.
    pub open spec fn spec_from_normal(normal: Int3) -> Neighbour {
        if normal.x == 1 {
            Neighbour::X
        } else if normal.x == -1 {
            Neighbour::NegX
        } else if normal.y == 1 {
            Neighbour::Y
        } else if normal.y == -1 {
            Neighbour::NegY
        } else if normal.z == 1 {
            Neighbour::Z
        } else {
            Neighbour::NegZ
        }
    }

    /// The six directions in their fixed order.
    pub fn all() -> (all: [Neighbour; 6])
        ensures
            forall|i: int| 0 <= i < 6 ==> all[i] == Neighbour::from_index(i),
    {
        [Neighbour::X, Neighbour::NegX, Neighbour::Y, Neighbour::NegY, Neighbour::Z, Neighbour::NegZ]
    }

    /// Position of the direction in the fixed order.
    pub fn index(&self) -> (i: usize)
        ensures
            i == self.spec_index(),
            i < 6,
    {
        match self {
            Neighbour::X => 0,
            Neighbour::NegX => 1,
            Neighbour::Y => 2,
            Neighbour::NegY => 3,
            Neighbour::Z => 4,
            Neighbour::NegZ => 5,
        }
    }

    /// The unit vector that points out of the face.
    pub fn normal(&self) -> (n: Int3)
        ensures
            n == self.spec_normal(),
            n.is_unit_normal(),
    {
        match self {
            Neighbour::X => Int3::new(1, 0, 0),
            Neighbour::NegX => Int3::new(-1, 0, 0),
            Neighbour::Y => Int3::new(0, 1, 0),
            Neighbour::NegY => Int3::new(0, -1, 0),
            Neighbour::Z => Int3::new(0, 0, 1),
            Neighbour::NegZ => Int3::new(0, 0, -1),
        }
    }

    /// The direction whose normal is `normal`, which must be one of the six
    /// unit vectors.
    pub fn from_normal(normal: Int3) -> (n: Neighbour)
        requires
            normal.is_unit_normal(),
        ensures
            n == Neighbour::spec_from_normal(normal),
            n.spec_normal() == normal,
    {
        if normal.x == 1 {
            Neighbour::X
        } else if normal.x == -1 {
            Neighbour::NegX
        } else if normal.y == 1 {
            Neighbour::Y
        } else if normal.y == -1 {
            Neighbour::NegY
        } else if normal.z == 1 {
            Neighbour::Z
        } else {
            Neighbour::NegZ
        }
    }
}

/// The contents of the chunks around one chunk: one entry per direction in
/// the fixed order, `None` where no chunk is loaded.
pub type NeighborStates = Seq<Option<ChunkState>>;

/// A borrowed view of up to six face-adjacent chunks, built for one mesh
/// rebuild and not stored.
#[derive(Copy, Clone)]
pub struct Neighbors<'a>(pub [Option<&'a Chunk>; 6]);

impl<'a> View for Neighbors<'a> {
    type V = NeighborStates;

    open spec fn view(&self) -> NeighborStates {
        Seq::new(
            6,
            |i: int|
                match self.0[i] {
                    Some(chunk) => Some(chunk@),
                    None => None,
                },
        )
    }
}

impl<'a> Default for Neighbors<'a> {
    /// No neighbour in any direction.
    fn default() -> (neighbours: Neighbors<'a>)
        ensures
            forall|i: int| 0 <= i < 6 ==> neighbours@[i] is None,
            neighbours.wf(),
    {
        Neighbors([None, None, None, None, None, None])
    }
}

impl<'a> Neighbors<'a> {
    /// Every chunk in the view is well formed.
    pub open spec fn wf(&self) -> bool {
        forall|i: int| 0 <= i < 6 ==> (#[trigger] self.0[i] matches Some(chunk) ==> chunk.wf())
    }

    /// The chunk beyond face `neighbour`, if one is present.
    pub open spec fn spec_get(&self, neighbour: Neighbour) -> Option<&'a Chunk> {
        self.0[neighbour.spec_index()]
    }

    /// Wraps six optional chunks given in the order +X, -X, +Y, -Y, +Z, -Z.
    pub fn from_array(array: [Option<&'a Chunk>; 6]) -> (neighbours: Neighbors<'a>)
        ensures
            neighbours.0 == array,
    {
        Neighbors(array)
    }

    /// The chunk beyond face `neighbour`, if one is present.
    pub fn get(&self, neighbour: Neighbour) -> (chunk: Option<&'a Chunk>)
        ensures
            chunk == self.spec_get(neighbour),
    {
        self.0[neighbour.index()]
    }

    /// The chunk beyond the face whose normal is `normal`.
    pub fn get_from_normal(&self, normal: Int3) -> (chunk: Option<&'a Chunk>)
        requires
            normal.is_unit_normal(),
        ensures
            chunk == self.spec_get(Neighbour::spec_from_normal(normal)),
    {
        self.get(Neighbour::from_normal(normal))
    }
}

/// A strategy that turns a chunk and its neighbours into a mesh.
pub trait ChunkMesher: Send + Sync + 'static {
    /// The mesh this strategy makes of a chunk: a function of the chunk,
    /// the chunks around it and the registry.
    spec fn mesh_of(
        &self,
        chunk: ChunkState,
        neighbours: NeighborStates,
        registry: Map<BlockId, BlockTiles>,
    ) -> MeshState;

    /// Builds the mesh of `chunk`. Cells beyond the chunk's edge are read
    /// from `neighbours`; tiles are looked up in `registry`, which must
    /// know the block of every solid voxel of the chunk.
    fn build_mesh(&self, chunk: &Chunk, neighbours: Neighbors, registry: &BlockRegistry) -> (mesh: MeshBuffers)
        requires
            chunk.wf(),
            neighbours.wf(),
            blocks_registered(chunk@, registry@),
        ensures
            mesh@ == self.mesh_of(chunk@, neighbours@, registry@),
            mesh@.wf(),
    ;
}

} // verus!
