use aettesaga::chunk::Chunk;
use aettesaga::coords::{CHUNK_SIZE, CHUNK_VOLUME};
use aettesaga::voxel::Voxel;

#[test]
fn new_chunk_is_dirty_and_all_air() {
    let chunk = Chunk::new();
    assert!(chunk.is_dirty());
    for z in 0..CHUNK_SIZE {
        for y in 0..CHUNK_SIZE {
            for x in 0..CHUNK_SIZE {
                assert!(chunk.get(x, y, z).is_air());
                assert_eq!(chunk.get(x, y, z), Voxel::air());
            }
        }
    }
}

#[test]
fn default_chunk_is_dirty_and_all_air() {
    let chunk = Chunk::default();
    assert!(chunk.is_dirty());
    assert_eq!(chunk.voxels().len(), CHUNK_VOLUME);
    assert!(chunk.voxels().iter().all(|v| v.is_air()));
    for z in 0..CHUNK_SIZE {
        for y in 0..CHUNK_SIZE {
            for x in 0..CHUNK_SIZE {
                assert!(chunk.get(x, y, z).is_air());
            }
        }
    }
}

#[test]
fn chunk_volume_is_the_cube_of_its_side() {
    assert_eq!(CHUNK_SIZE, 32);
    assert_eq!(CHUNK_VOLUME, 32768);
}

#[test]
fn index_follows_the_flattening_formula() {
    assert_eq!(Chunk::index(0, 0, 0), 0);
    assert_eq!(Chunk::index(1, 0, 0), 1);
    assert_eq!(Chunk::index(0, 1, 0), 32);
    assert_eq!(Chunk::index(0, 0, 1), 1024);
    assert_eq!(Chunk::index(1, 2, 3), 3137);
    assert_eq!(Chunk::index(31, 31, 31), 32767);
}

#[test]
fn set_then_get_returns_the_value() {
    let mut chunk = Chunk::new();
    for &(x, y, z, id) in &[(0usize, 0usize, 0usize, 1u16), (31, 31, 31, 2), (5, 17, 9, 3), (31, 0, 0, 7)] {
        chunk.set(x, y, z, Voxel::new(id));
        assert_eq!(chunk.get(x, y, z), Voxel::new(id));
        assert_eq!(chunk.get(x, y, z).block_id(), id);
        assert!(chunk.get(x, y, z).is_solid());
    }
    assert_eq!(chunk.voxels()[9765], Voxel::new(3));
}

#[test]
fn set_touches_one_cell_only() {
    let mut chunk = Chunk::new();
    chunk.set(3, 4, 5, Voxel::new(2));
    let solid = chunk.voxels().iter().filter(|v| v.is_solid()).count();
    assert_eq!(solid, 1);
    assert!(chunk.get(4, 4, 5).is_air());
    assert!(chunk.get(3, 5, 5).is_air());
    assert!(chunk.get(3, 4, 6).is_air());
}

#[test]
fn set_marks_dirty_even_when_the_value_is_unchanged() {
    let mut chunk = Chunk::new();
    chunk.set(1, 1, 1, Voxel::new(1));
    chunk.clear_dirty();
    assert!(!chunk.is_dirty());
    chunk.set(1, 1, 1, Voxel::new(1));
    assert!(chunk.is_dirty());
    chunk.clear_dirty();
    chunk.set(2, 2, 2, Voxel::air());
    assert!(chunk.is_dirty());
    assert!(chunk.get(2, 2, 2).is_air());
}

#[test]
fn clear_dirty_is_idempotent() {
    let mut chunk = Chunk::new();
    chunk.set(0, 0, 0, Voxel::new(1));
    chunk.clear_dirty();
    assert!(!chunk.is_dirty());
    chunk.clear_dirty();
    assert!(!chunk.is_dirty());
    assert_eq!(chunk.get(0, 0, 0), Voxel::new(1));
}

#[test]
fn voxel_made_from_zero_is_air() {
    assert!(Voxel::new(0).is_air());
    assert!(!Voxel::new(0).is_solid());
    assert_eq!(Voxel::new(0), Voxel::air());
    assert_eq!(Voxel::air().block_id(), 0);
}

#[test]
fn voxel_made_from_a_block_is_solid() {
    let v = Voxel::new(5);
    assert!(v.is_solid());
    assert!(!v.is_air());
    assert_eq!(v.block_id(), 5);
    assert_ne!(v, Voxel::new(6));
}
