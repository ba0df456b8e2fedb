use aettesaga::blocks::{BlockRegistry, BLOCK_DIRT, BLOCK_GRASS, BLOCK_STONE};
use aettesaga::chunk::Chunk;
use aettesaga::coords::Int3;
use aettesaga::mesh::{face_uvs, MeshBuffers, Uv};
use aettesaga::meshers::{ChunkMesher, Neighbors, Neighbour};
use aettesaga::naive_mesher::{
    face_is_exposed, face_kind_from_normal, face_vertices, FaceKind, NaiveMesher, TileResolver,
};
use aettesaga::voxel::Voxel;

fn mesh_alone(chunk: &Chunk) -> MeshBuffers {
    NaiveMesher.build_mesh(chunk, Neighbors::default(), &BlockRegistry::default())
}

fn quads_with_normal(mesh: &MeshBuffers, normal: Int3) -> usize {
    mesh.normals.iter().filter(|n| **n == normal).count() / 4
}

fn only_neighbour(direction: Neighbour, chunk: &Chunk) -> Neighbors<'_> {
    let mut array: [Option<&Chunk>; 6] = [None; 6];
    array[direction.index()] = Some(chunk);
    Neighbors::from_array(array)
}

#[test]
fn empty_chunk_has_an_empty_mesh() {
    let mesh = mesh_alone(&Chunk::new());
    assert!(mesh.positions.is_empty());
    assert!(mesh.normals.is_empty());
    assert!(mesh.uvs.is_empty());
    assert!(mesh.tile_ids.is_empty());
    assert!(mesh.indices.is_empty());
}

#[test]
fn single_voxel_emits_six_quads() {
    let mut chunk = Chunk::new();
    chunk.set(5, 6, 7, Voxel::new(BLOCK_STONE));
    let mesh = mesh_alone(&chunk);
    assert_eq!(mesh.positions.len(), 24);
    assert_eq!(mesh.normals.len(), 24);
    assert_eq!(mesh.uvs.len(), 24);
    assert_eq!(mesh.tile_ids.len(), 24);
    assert_eq!(mesh.indices.len(), 36);
}

#[test]
fn single_voxel_quads_come_in_face_order() {
    let mut chunk = Chunk::new();
    chunk.set(5, 6, 7, Voxel::new(BLOCK_STONE));
    let mesh = mesh_alone(&chunk);
    let normals = [
        Int3::new(1, 0, 0),
        Int3::new(-1, 0, 0),
        Int3::new(0, 1, 0),
        Int3::new(0, -1, 0),
        Int3::new(0, 0, 1),
        Int3::new(0, 0, -1),
    ];
    for (q, normal) in normals.iter().enumerate() {
        for j in 0..4 {
            assert_eq!(mesh.normals[4 * q + j], *normal);
        }
    }
}

#[test]
fn single_voxel_corner_positions_are_exact() {
    let mut chunk = Chunk::new();
    chunk.set(5, 6, 7, Voxel::new(BLOCK_STONE));
    let mesh = mesh_alone(&chunk);
    let expected = [
        // +X
        Int3::new(6, 6, 7),
        Int3::new(6, 7, 7),
        Int3::new(6, 7, 8),
        Int3::new(6, 6, 8),
        // -X
        Int3::new(5, 6, 8),
        Int3::new(5, 7, 8),
        Int3::new(5, 7, 7),
        Int3::new(5, 6, 7),
        // +Y
        Int3::new(5, 7, 7),
        Int3::new(5, 7, 8),
        Int3::new(6, 7, 8),
        Int3::new(6, 7, 7),
        // -Y
        Int3::new(5, 6, 8),
        Int3::new(5, 6, 7),
        Int3::new(6, 6, 7),
        Int3::new(6, 6, 8),
        // +Z
        Int3::new(5, 6, 8),
        Int3::new(6, 6, 8),
        Int3::new(6, 7, 8),
        Int3::new(5, 7, 8),
        // -Z
        Int3::new(6, 6, 7),
        Int3::new(5, 6, 7),
        Int3::new(5, 7, 7),
        Int3::new(6, 7, 7),
    ];
    assert_eq!(mesh.positions, expected.to_vec());
}

#[test]
fn indices_draw_two_triangles_per_quad() {
    let mut chunk = Chunk::new();
    chunk.set(0, 0, 0, Voxel::new(BLOCK_DIRT));
    let mesh = mesh_alone(&chunk);
    let mut expected = Vec::new();
    for q in 0..6u32 {
        let base = 4 * q;
        expected.extend_from_slice(&[base, base + 1, base + 2, base, base + 2, base + 3]);
    }
    assert_eq!(mesh.indices, expected);
}

#[test]
fn tiles_follow_the_face_class() {
    let mut chunk = Chunk::new();
    chunk.set(1, 1, 1, Voxel::new(BLOCK_DIRT));
    let mesh = mesh_alone(&chunk);
    // dirt has tiles top 3, side 4, bottom 5
    let per_quad: Vec<u32> = (0..6).map(|q| mesh.tile_ids[4 * q]).collect();
    assert_eq!(per_quad, vec![4, 4, 3, 5, 4, 4]);
    for q in 0..6 {
        for j in 0..4 {
            assert_eq!(mesh.tile_ids[4 * q + j], per_quad[q]);
        }
    }
}

#[test]
fn uvs_follow_the_normal() {
    let mut chunk = Chunk::new();
    chunk.set(1, 1, 1, Voxel::new(BLOCK_GRASS));
    let mesh = mesh_alone(&chunk);
    let uv = |u, v| Uv { u, v };
    let expected = vec![
        uv(0, 1), uv(0, 0), uv(1, 0), uv(1, 1), // +X
        uv(1, 1), uv(1, 0), uv(0, 0), uv(0, 1), // -X
        uv(0, 1), uv(1, 1), uv(1, 0), uv(0, 0), // +Y
        uv(0, 1), uv(1, 1), uv(1, 0), uv(0, 0), // -Y
        uv(0, 1), uv(1, 1), uv(1, 0), uv(0, 0), // +Z
        uv(1, 1), uv(0, 1), uv(0, 0), uv(1, 0), // -Z
    ];
    assert_eq!(mesh.uvs, expected);
}

#[test]
fn face_uvs_of_each_normal() {
    let uv = |u, v| Uv { u, v };
    assert_eq!(face_uvs(Int3::new(1, 0, 0)), [uv(0, 1), uv(0, 0), uv(1, 0), uv(1, 1)]);
    assert_eq!(face_uvs(Int3::new(-1, 0, 0)), [uv(1, 1), uv(1, 0), uv(0, 0), uv(0, 1)]);
    assert_eq!(face_uvs(Int3::new(0, 0, 1)), [uv(0, 1), uv(1, 1), uv(1, 0), uv(0, 0)]);
    assert_eq!(face_uvs(Int3::new(0, 0, -1)), [uv(1, 1), uv(0, 1), uv(0, 0), uv(1, 0)]);
    assert_eq!(face_uvs(Int3::new(0, 1, 0)), [uv(0, 1), uv(1, 1), uv(1, 0), uv(0, 0)]);
    assert_eq!(face_uvs(Int3::new(0, -1, 0)), [uv(0, 1), uv(1, 1), uv(1, 0), uv(0, 0)]);
}

#[test]
fn two_adjacent_voxels_emit_ten_quads() {
    for (a, b) in [((4, 4, 4), (5, 4, 4)), ((4, 4, 4), (4, 5, 4)), ((4, 4, 4), (4, 4, 5)), ((0, 0, 0), (1, 0, 0))] {
        let mut chunk = Chunk::new();
        chunk.set(a.0, a.1, a.2, Voxel::new(BLOCK_STONE));
        chunk.set(b.0, b.1, b.2, Voxel::new(BLOCK_STONE));
        let mesh = mesh_alone(&chunk);
        assert_eq!(mesh.positions.len(), 40);
        assert_eq!(mesh.indices.len(), 60);
    }
}

#[test]
fn shared_face_is_suppressed_on_both_sides() {
    let mut chunk = Chunk::new();
    chunk.set(4, 4, 4, Voxel::new(BLOCK_STONE));
    chunk.set(5, 4, 4, Voxel::new(BLOCK_STONE));
    let none = Neighbors::default();
    assert!(!face_is_exposed(&chunk, none, 4, 4, 4, Neighbour::X));
    assert!(!face_is_exposed(&chunk, none, 5, 4, 4, Neighbour::NegX));
    assert!(face_is_exposed(&chunk, none, 4, 4, 4, Neighbour::NegX));
    assert!(face_is_exposed(&chunk, none, 5, 4, 4, Neighbour::X));
    let mesh = mesh_alone(&chunk);
    assert_eq!(quads_with_normal(&mesh, Int3::new(1, 0, 0)), 1);
    assert_eq!(quads_with_normal(&mesh, Int3::new(-1, 0, 0)), 1);
    assert_eq!(quads_with_normal(&mesh, Int3::new(0, 1, 0)), 2);
}

#[test]
fn air_has_no_exposed_face() {
    let chunk = Chunk::new();
    for face in Neighbour::all() {
        assert!(!face_is_exposed(&chunk, Neighbors::default(), 3, 3, 3, face));
    }
}

#[test]
fn full_chunk_draws_only_its_surface() {
    let mut chunk = Chunk::new();
    for z in 0..32 {
        for y in 0..32 {
            for x in 0..32 {
                chunk.set(x, y, z, Voxel::new(BLOCK_STONE));
            }
        }
    }
    let mesh = mesh_alone(&chunk);
    assert_eq!(mesh.positions.len(), 4 * 6 * 32 * 32);
    assert_eq!(mesh.indices.len(), 6 * 6 * 32 * 32);
}

#[test]
fn boundary_face_without_neighbour_is_emitted() {
    for (y, z) in [(0, 0), (7, 19), (31, 31)] {
        let mut chunk = Chunk::new();
        chunk.set(31, y, z, Voxel::new(BLOCK_STONE));
        assert!(face_is_exposed(&chunk, Neighbors::default(), 31, y, z, Neighbour::X));
        let mesh = mesh_alone(&chunk);
        assert_eq!(mesh.positions.len(), 24);
        assert_eq!(quads_with_normal(&mesh, Int3::new(1, 0, 0)), 1);
        assert_eq!(mesh.positions[0], Int3::new(32, y as i32, z as i32));
    }
}

#[test]
fn boundary_face_against_solid_neighbour_is_suppressed() {
    let mut chunk = Chunk::new();
    chunk.set(31, 0, 0, Voxel::new(BLOCK_STONE));
    let mut beyond = Chunk::new();
    beyond.set(0, 0, 0, Voxel::new(BLOCK_STONE));
    let neighbours = only_neighbour(Neighbour::X, &beyond);
    assert!(!face_is_exposed(&chunk, neighbours, 31, 0, 0, Neighbour::X));
    let mesh = NaiveMesher.build_mesh(&chunk, neighbours, &BlockRegistry::default());
    assert_eq!(mesh.positions.len(), 20);
    assert_eq!(quads_with_normal(&mesh, Int3::new(1, 0, 0)), 0);
}

#[test]
fn boundary_face_against_air_neighbour_is_emitted() {
    let mut chunk = Chunk::new();
    chunk.set(31, 0, 0, Voxel::new(BLOCK_STONE));
    let mut beyond = Chunk::new();
    beyond.set(1, 0, 0, Voxel::new(BLOCK_STONE));
    beyond.set(31, 0, 0, Voxel::new(BLOCK_STONE));
    let neighbours = only_neighbour(Neighbour::X, &beyond);
    assert!(face_is_exposed(&chunk, neighbours, 31, 0, 0, Neighbour::X));
    let mesh = NaiveMesher.build_mesh(&chunk, neighbours, &BlockRegistry::default());
    assert_eq!(mesh.positions.len(), 24);
    assert_eq!(quads_with_normal(&mesh, Int3::new(1, 0, 0)), 1);
}

#[test]
fn every_direction_wraps_into_its_own_neighbour() {
    let cases = [
        (Neighbour::X, (31, 3, 4), (0, 3, 4)),
        (Neighbour::NegX, (0, 3, 4), (31, 3, 4)),
        (Neighbour::Y, (3, 31, 4), (3, 0, 4)),
        (Neighbour::NegY, (3, 0, 4), (3, 31, 4)),
        (Neighbour::Z, (3, 4, 31), (3, 4, 0)),
        (Neighbour::NegZ, (3, 4, 0), (3, 4, 31)),
    ];
    for (direction, cell, wrapped) in cases {
        let mut chunk = Chunk::new();
        chunk.set(cell.0, cell.1, cell.2, Voxel::new(BLOCK_STONE));
        let mut beyond = Chunk::new();
        beyond.set(wrapped.0, wrapped.1, wrapped.2, Voxel::new(BLOCK_STONE));
        assert!(!face_is_exposed(&chunk, only_neighbour(direction, &beyond), cell.0, cell.1, cell.2, direction));
        // the same chunk in any other direction does not hide the face
        for other in Neighbour::all() {
            if other != direction {
                assert!(face_is_exposed(&chunk, only_neighbour(other, &beyond), cell.0, cell.1, cell.2, direction));
            }
        }
    }
}

#[test]
fn neighbour_contents_do_not_change_tiles() {
    let mut chunk = Chunk::new();
    chunk.set(31, 0, 0, Voxel::new(BLOCK_GRASS));
    let mut beyond = Chunk::new();
    beyond.set(5, 5, 5, Voxel::new(BLOCK_STONE));
    let alone = mesh_alone(&chunk);
    let with = NaiveMesher.build_mesh(&chunk, only_neighbour(Neighbour::X, &beyond), &BlockRegistry::default());
    assert_eq!(alone.tile_ids, with.tile_ids);
    assert_eq!(alone.positions, with.positions);
}

#[test]
fn scan_order_is_x_then_y_then_z() {
    let mut chunk = Chunk::new();
    chunk.set(0, 0, 1, Voxel::new(BLOCK_STONE));
    chunk.set(0, 1, 0, Voxel::new(BLOCK_DIRT));
    chunk.set(1, 0, 0, Voxel::new(BLOCK_GRASS));
    let mesh = mesh_alone(&chunk);
    assert_eq!(mesh.positions.len(), 72);
    // the first vertex of each voxel's first quad is its +X face corner
    assert_eq!(mesh.positions[0], Int3::new(2, 0, 0));
    assert_eq!(mesh.positions[24], Int3::new(1, 1, 0));
    assert_eq!(mesh.positions[48], Int3::new(1, 0, 1));
}

#[test]
fn add_quad_appends_one_quad() {
    let mut mesh = MeshBuffers::new();
    let verts = [Int3::new(0, 0, 0), Int3::new(1, 0, 0), Int3::new(1, 1, 0), Int3::new(0, 1, 0)];
    mesh.add_quad(verts, 9, Int3::new(0, 0, -1));
    mesh.add_quad(verts, 4, Int3::new(1, 0, 0));
    assert_eq!(mesh.positions.len(), 8);
    assert_eq!(mesh.positions[4..8], verts);
    assert_eq!(mesh.normals[0..4], [Int3::new(0, 0, -1); 4]);
    assert_eq!(mesh.normals[4..8], [Int3::new(1, 0, 0); 4]);
    assert_eq!(mesh.tile_ids, vec![9, 9, 9, 9, 4, 4, 4, 4]);
    assert_eq!(mesh.indices, vec![0, 1, 2, 0, 2, 3, 4, 5, 6, 4, 6, 7]);
    assert_eq!(mesh.uvs[0], Uv { u: 1, v: 1 });
    assert_eq!(mesh.uvs[4], Uv { u: 0, v: 1 });
}

#[test]
fn face_kind_of_each_normal() {
    assert_eq!(face_kind_from_normal(Int3::new(0, 1, 0)), FaceKind::Top);
    assert_eq!(face_kind_from_normal(Int3::new(0, -1, 0)), FaceKind::Bottom);
    assert_eq!(face_kind_from_normal(Int3::new(1, 0, 0)), FaceKind::Side);
    assert_eq!(face_kind_from_normal(Int3::new(-1, 0, 0)), FaceKind::Side);
    assert_eq!(face_kind_from_normal(Int3::new(0, 0, 1)), FaceKind::Side);
    assert_eq!(face_kind_from_normal(Int3::new(0, 0, -1)), FaceKind::Side);
}

#[test]
fn resolver_picks_the_tile_of_the_face_class() {
    let registry = BlockRegistry::default();
    let resolver = TileResolver { registry: &registry };
    assert_eq!(resolver.resolve(BLOCK_GRASS, FaceKind::Top), 0);
    assert_eq!(resolver.resolve(BLOCK_GRASS, FaceKind::Side), 1);
    assert_eq!(resolver.resolve(BLOCK_GRASS, FaceKind::Bottom), 2);
    assert_eq!(resolver.resolve(BLOCK_STONE, FaceKind::Top), 6);
    assert_eq!(resolver.resolve(BLOCK_STONE, FaceKind::Side), 7);
    assert_eq!(resolver.resolve(BLOCK_STONE, FaceKind::Bottom), 8);
}

#[test]
fn face_vertices_of_a_cell() {
    assert_eq!(
        face_vertices(Int3::new(2, 3, 4), Neighbour::Y),
        [Int3::new(2, 4, 4), Int3::new(2, 4, 5), Int3::new(3, 4, 5), Int3::new(3, 4, 4)]
    );
    assert_eq!(
        face_vertices(Int3::new(0, 0, 0), Neighbour::NegZ),
        [Int3::new(1, 0, 0), Int3::new(0, 0, 0), Int3::new(0, 1, 0), Int3::new(1, 1, 0)]
    );
}

#[test]
fn directions_have_a_fixed_order() {
    let all = Neighbour::all();
    assert_eq!(all, [Neighbour::X, Neighbour::NegX, Neighbour::Y, Neighbour::NegY, Neighbour::Z, Neighbour::NegZ]);
    for (i, direction) in all.iter().enumerate() {
        assert_eq!(direction.index(), i);
    }
}

#[test]
fn normal_and_from_normal_are_inverse() {
    assert_eq!(Neighbour::X.normal(), Int3::new(1, 0, 0));
    assert_eq!(Neighbour::NegX.normal(), Int3::new(-1, 0, 0));
    assert_eq!(Neighbour::Y.normal(), Int3::new(0, 1, 0));
    assert_eq!(Neighbour::NegY.normal(), Int3::new(0, -1, 0));
    assert_eq!(Neighbour::Z.normal(), Int3::new(0, 0, 1));
    assert_eq!(Neighbour::NegZ.normal(), Int3::new(0, 0, -1));
    for direction in Neighbour::all() {
        assert_eq!(Neighbour::from_normal(direction.normal()), direction);
    }
}

#[test]
fn neighbours_are_found_by_direction_and_by_normal() {
    let mut a = Chunk::new();
    a.set(1, 1, 1, Voxel::new(1));
    let neighbours = only_neighbour(Neighbour::NegY, &a);
    assert!(neighbours.get(Neighbour::NegY).is_some());
    assert!(neighbours.get(Neighbour::Y).is_none());
    assert!(neighbours.get_from_normal(Int3::new(0, -1, 0)).unwrap().get(1, 1, 1).is_solid());
    assert!(neighbours.get_from_normal(Int3::new(1, 0, 0)).is_none());
    let none = Neighbors::default();
    for direction in Neighbour::all() {
        assert!(none.get(direction).is_none());
    }
}
