//! Mesh buffers: what a mesher produces and a renderer uploads.
//!
//! A mesh is a list of quads. Each quad owns four consecutive vertices and
//! six consecutive indices that cut it into two triangles. All vertex data
//! is integral: positions are grid corners, normals are unit vectors and
//! texture coordinates are corners of the unit square.

use vstd::prelude::*;

use crate::blocks::TileId;
use crate::coords::Int3;

verus! {

/// A texture coordinate at a corner of the unit square.
#[derive(Copy, Clone, Debug, PartialEq, Eq, Structural)]
pub struct Uv {
    pub u: u8,
    pub v: u8,
}

/// The texture coordinates of a quad's four corners, chosen by the quad's
/// normal so that the tile reads upright on every face.
pub open spec fn face_uvs_of(normal: Int3) -> Seq<Uv> {
    if normal == (Int3 { x: 1, y: 0, z: 0 }) {
        seq![Uv { u: 0, v: 1 }, Uv { u: 0, v: 0 }, Uv { u: 1, v: 0 }, Uv { u: 1, v: 1 }]
    } else if normal == (Int3 { x: (-1) as i32, y: 0, z: 0 }) {
        seq![Uv { u: 1, v: 1 }, Uv { u: 1, v: 0 }, Uv { u: 0, v: 0 }, Uv { u: 0, v: 1 }]
    } else if normal == (Int3 { x: 0, y: 0, z: (-1) as i32 }) {
        seq![Uv { u: 1, v: 1 }, Uv { u: 0, v: 1 }, Uv { u: 0, v: 0 }, Uv { u: 1, v: 0 }]
    } else {
        seq![Uv { u: 0, v: 1 }, Uv { u: 1, v: 1 }, Uv { u: 1, v: 0 }, Uv { u: 0, v: 0 }]
    }
}

/// The six indices of the quad whose first vertex is `base`: the
/// triangles `(0, 1, 2)` and `(0, 2, 3)`.
pub open spec fn quad_indices(base: int) -> Seq<u32> {
    seq![
        base as u32,
        (base + 1) as u32,
        (base + 2) as u32,
        base as u32,
        (base + 2) as u32,
        (base + 3) as u32,
    ]
}

/// The mathematical content of a mesh.
pub struct MeshState {
    pub positions: Seq<Int3>,
    pub normals: Seq<Int3>,
    pub uvs: Seq<Uv>,
    pub tile_ids: Seq<u32>,
    pub indices: Seq<u32>,
}

impl MeshState {
    /// The mesh without geometry.
    pub open spec fn empty() -> MeshState {
        MeshState {
            positions: Seq::empty(),
            normals: Seq::empty(),
            uvs: Seq::empty(),
            tile_ids: Seq::empty(),
            indices: Seq::empty(),
        }
    }

    /// Number of quads in a well-formed mesh.
    pub open spec fn quad_count(self) -> int {
        self.positions.len() as int / 4
    }

    /// The mesh with one more quad at its end: four vertices that share
    /// `normal` and `tile_id`, and six indices that start at the vertex
    /// count before the call.
    pub open spec fn push_quad(self, verts: Seq<Int3>, tile_id: TileId, normal: Int3) -> MeshState {
        MeshState {
            positions: self.positions + verts,
            normals: self.normals + seq![normal, normal, normal, normal],
            uvs: self.uvs + face_uvs_of(normal),
            tile_ids: self.tile_ids + seq![tile_id as u32, tile_id as u32, tile_id as u32, tile_id as u32],
            indices: self.indices + quad_indices(self.positions.len() as int),
        }
    }

    /// The vertex buffers have one length, a multiple of four; there are
    /// six indices per quad; and every index names a vertex.
    pub open spec fn wf(self) -> bool {
        &&& self.positions.len() % 4 == 0
        &&& self.positions.len() <= u32::MAX
        &&& self.normals.len() == self.positions.len()
        &&& self.uvs.len() == self.positions.len()
        &&& self.tile_ids.len() == self.positions.len()
        &&& self.indices.len() == 6 * self.quad_count()
        &&& forall|i: int| 0 <= i < self.indices.len() ==> (#[trigger] self.indices[i]) < self.positions.len()
    }
}

/// Vertex and index buffers of a triangle mesh.
#[derive(Clone, Debug)]
pub struct MeshBuffers {
    pub positions: Vec<Int3>,
    pub normals: Vec<Int3>,
    pub uvs: Vec<Uv>,
    pub indices: Vec<u32>,
    pub tile_ids: Vec<u32>,
}

impl View for MeshBuffers {
    type V = MeshState;

    open spec fn view(&self) -> MeshState {
        MeshState {
            positions: self.positions@,
            normals: self.normals@,
            uvs: self.uvs@,
            tile_ids: self.tile_ids@,
            indices: self.indices@,
        }
    }
}

/// The texture coordinates of the four corners of a quad with the given normal.
pub fn face_uvs(normal: Int3) -> (uvs: [Uv; 4])
    ensures
        uvs@ == face_uvs_of(normal),
{
    let uvs = if normal.x == 1 && normal.y == 0 && normal.z == 0 {
        [Uv { u: 0, v: 1 }, Uv { u: 0, v: 0 }, Uv { u: 1, v: 0 }, Uv { u: 1, v: 1 }]
    } else if normal.x == -1 && normal.y == 0 && normal.z == 0 {
        [Uv { u: 1, v: 1 }, Uv { u: 1, v: 0 }, Uv { u: 0, v: 0 }, Uv { u: 0, v: 1 }]
    } else if normal.x == 0 && normal.y == 0 && normal.z == -1 {
        [Uv { u: 1, v: 1 }, Uv { u: 0, v: 1 }, Uv { u: 0, v: 0 }, Uv { u: 1, v: 0 }]
    } else {
        [Uv { u: 0, v: 1 }, Uv { u: 1, v: 1 }, Uv { u: 1, v: 0 }, Uv { u: 0, v: 0 }]
    };
    assert(uvs@ =~= face_uvs_of(normal));
    uvs
}

impl MeshBuffers {
    /// A mesh without geometry.
    pub fn new() -> (mesh: MeshBuffers)
        ensures
            mesh@ == MeshState::empty(),
    {
        MeshBuffers {
            positions: Vec::new(),
            normals: Vec::new(),
            uvs: Vec::new(),
            indices: Vec::new(),
            tile_ids: Vec::new(),
        }
    }

    /// Appends one quad: its four corners, their shared normal and tile,
    /// the texture coordinates that belong to the normal, and the indices
    /// of its two triangles.
    pub fn add_quad(&mut self, verts: [Int3; 4], tile_id: TileId, normal: Int3)
        requires
            old(self).positions.len() + 4 <= u32::MAX,
        ensures
            final(self)@ == old(self)@.push_quad(verts@, tile_id, normal),
    {
        let base: u32 = self.positions.len() as u32;
        let uvs = face_uvs(normal);
        let tile: u32 = tile_id as u32;
        let mut k: usize = 0;
        while k < 4
            invariant
                k <= 4,
                uvs@ == face_uvs_of(normal),
                self.positions@ == old(self).positions@ + verts@.take(k as int),
                self.normals@ == old(self).normals@ + Seq::new(k as nat, |i: int| normal),
                self.uvs@ == old(self).uvs@ + face_uvs_of(normal).take(k as int),
                self.tile_ids@ == old(self).tile_ids@ + Seq::new(k as nat, |i: int| tile),
                self.indices@ == old(self).indices@,
            decreases 4 - k,
        {
            self.positions.push(verts[k]);
            self.normals.push(normal);
            self.uvs.push(uvs[k]);
            self.tile_ids.push(tile);
            k += 1;
        }
        self.indices.push(base);
        self.indices.push(base + 1);
        self.indices.push(base + 2);
        self.indices.push(base);
        self.indices.push(base + 2);
        self.indices.push(base + 3);
        proof {
            let target = old(self)@.push_quad(verts@, tile_id, normal);
            assert(verts@.take(4) =~= verts@);
            assert(face_uvs_of(normal).take(4) =~= face_uvs_of(normal));
            assert(self.normals@ =~= target.normals);
            assert(self.tile_ids@ =~= target.tile_ids);
            assert(self.indices@ =~= target.indices);
        }
    }
}

} // verus!
