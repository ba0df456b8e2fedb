use aettesaga::chunk::Chunk;
use aettesaga::coords::Int3;
use aettesaga::voxel::Voxel;
use aettesaga::voxel_clicked::{
    adjacent_voxel, emit_voxel_click_event, on_voxel_clicked, write_voxel, ClickButton, VoxelClicked,
};
use aettesaga::voxel_picking::{
    build_hit, cross_plane, is_solid, nearest_axis, next_crossing, pick_voxel_dda, ray_step, Axis, VoxelFace,
    VoxelHit,
};
use aettesaga::world::{ChunkEntityMap, Chunks};

/// The cell a ray starts in, its step per axis and the order in which it
/// crosses grid planes up to `max_distance`.
fn trace(origin: [f32; 3], direction: [f32; 3], max_distance: f32) -> (Int3, Int3, Vec<Axis>) {
    let length = direction.iter().map(|d| d * d).sum::<f32>().sqrt();
    let dir = [direction[0] / length, direction[1] / length, direction[2] / length];
    let cell = [origin[0].floor() as i32, origin[1].floor() as i32, origin[2].floor() as i32];
    let step = [
        ray_step(dir[0] > 0.0, dir[0] < 0.0),
        ray_step(dir[1] > 0.0, dir[1] < 0.0),
        ray_step(dir[2] > 0.0, dir[2] < 0.0),
    ];
    let mut t_max = [f32::INFINITY; 3];
    let mut t_delta = [f32::INFINITY; 3];
    for a in 0..3 {
        if step[a] != 0 {
            let boundary = if step[a] > 0 { cell[a] as f32 + 1.0 } else { cell[a] as f32 };
            t_max[a] = (boundary - origin[a]) / dir[a];
            t_delta[a] = 1.0 / dir[a].abs();
        }
    }
    let mut crossings = Vec::new();
    while let Some(axis) = next_crossing(
        t_max[0] <= t_max[1],
        t_max[0] <= t_max[2],
        t_max[1] <= t_max[2],
        t_max[0] <= max_distance,
        t_max[1] <= max_distance,
        t_max[2] <= max_distance,
    ) {
        let a = match axis {
            Axis::X => 0,
            Axis::Y => 1,
            Axis::Z => 2,
        };
        t_max[a] += t_delta[a];
        crossings.push(axis);
    }
    (Int3::new(cell[0], cell[1], cell[2]), Int3::new(step[0], step[1], step[2]), crossings)
}

fn world_with(solid: &[Int3]) -> (ChunkEntityMap, Chunks) {
    let mut map = ChunkEntityMap::default();
    let mut chunks = Chunks::default();
    let mut next = 1u64;
    for cx in -1..=1 {
        for cy in -1..=1 {
            for cz in -1..=1 {
                map.insert(Int3::new(cx, cy, cz), next);
                let mut chunk = Chunk::new();
                chunk.clear_dirty();
                chunks.insert(next, chunk);
                next += 1;
            }
        }
    }
    for cell in solid {
        let hit = build_hit(*cell, VoxelFace::PosY);
        write_voxel(hit.chunk, hit.local, Voxel::new(3), &map, &mut chunks);
        let entity = map.get(&hit.chunk).unwrap();
        let mut chunk = chunks.remove(entity).unwrap();
        chunk.clear_dirty();
        chunks.insert(entity, chunk);
    }
    (map, chunks)
}

fn chunk_of<'a>(map: &ChunkEntityMap, chunks: &'a Chunks, coord: Int3) -> &'a Chunk {
    chunks.get(map.get(&coord).unwrap()).unwrap()
}

#[test]
fn ray_along_z_hits_the_near_face() {
    let (map, chunks) = world_with(&[Int3::new(0, 0, 0)]);
    let (origin, step, crossings) = trace([0.5, 0.5, -5.0], [0.0, 0.0, 1.0], 128.0);
    assert_eq!(origin, Int3::new(0, 0, -5));
    assert_eq!(step, Int3::new(0, 0, 1));
    let hit = pick_voxel_dda(origin, step, &crossings, &map, &chunks).unwrap();
    assert_eq!(hit.world, Int3::new(0, 0, 0));
    assert_eq!(hit.chunk, Int3::new(0, 0, 0));
    assert_eq!(hit.local, Int3::new(0, 0, 0));
    assert_eq!(hit.face, VoxelFace::NegZ);
}

#[test]
fn ray_from_each_side_hits_the_facing_face() {
    let (map, chunks) = world_with(&[Int3::new(0, 0, 0)]);
    let cases = [
        ([5.5, 0.5, 0.5], [-1.0, 0.0, 0.0], VoxelFace::PosX),
        ([-5.5, 0.5, 0.5], [1.0, 0.0, 0.0], VoxelFace::NegX),
        ([0.5, 5.5, 0.5], [0.0, -1.0, 0.0], VoxelFace::PosY),
        ([0.5, -5.5, 0.5], [0.0, 1.0, 0.0], VoxelFace::NegY),
        ([0.5, 0.5, 5.5], [0.0, 0.0, -1.0], VoxelFace::PosZ),
        ([0.5, 0.5, -5.5], [0.0, 0.0, 1.0], VoxelFace::NegZ),
    ];
    for (origin, direction, face) in cases {
        let (cell, step, crossings) = trace(origin, direction, 128.0);
        let hit = pick_voxel_dda(cell, step, &crossings, &map, &chunks).unwrap();
        assert_eq!(hit.world, Int3::new(0, 0, 0));
        assert_eq!(hit.face, face);
    }
}

#[test]
fn ray_stops_at_the_first_solid_voxel() {
    let (map, chunks) = world_with(&[Int3::new(0, 0, 3), Int3::new(0, 0, 1), Int3::new(0, 0, 7)]);
    let (origin, step, crossings) = trace([0.5, 0.5, -5.0], [0.0, 0.0, 1.0], 128.0);
    let hit = pick_voxel_dda(origin, step, &crossings, &map, &chunks).unwrap();
    assert_eq!(hit.world, Int3::new(0, 0, 1));
}

#[test]
fn ray_into_a_negative_chunk_reports_local_coordinates() {
    let (map, chunks) = world_with(&[Int3::new(-1, -3, 2)]);
    let (origin, step, crossings) = trace([-0.5, 4.5, 2.5], [0.0, -1.0, 0.0], 128.0);
    let hit = pick_voxel_dda(origin, step, &crossings, &map, &chunks).unwrap();
    assert_eq!(hit.world, Int3::new(-1, -3, 2));
    assert_eq!(hit.chunk, Int3::new(-1, -1, 0));
    assert_eq!(hit.local, Int3::new(31, 29, 2));
    assert_eq!(hit.face, VoxelFace::PosY);
}

#[test]
fn diagonal_ray_reports_the_face_it_crossed_last() {
    let (map, chunks) = world_with(&[Int3::new(3, 0, 0)]);
    let (origin, step, crossings) = trace([0.5, 0.5, 0.25], [1.0, 0.0, 0.1], 128.0);
    let hit = pick_voxel_dda(origin, step, &crossings, &map, &chunks).unwrap();
    assert_eq!(hit.world, Int3::new(3, 0, 0));
    assert_eq!(hit.face, VoxelFace::NegX);
}

#[test]
fn ray_that_meets_nothing_reports_no_hit() {
    let (map, chunks) = world_with(&[Int3::new(0, 0, 0)]);
    let (origin, step, crossings) = trace([0.5, 5.5, -5.0], [0.0, 0.0, 1.0], 128.0);
    assert_eq!(pick_voxel_dda(origin, step, &crossings, &map, &chunks), None);
}

#[test]
fn ray_does_not_reach_beyond_its_crossings() {
    let (map, chunks) = world_with(&[Int3::new(0, 0, 10)]);
    let (origin, step, crossings) = trace([0.5, 0.5, 0.5], [0.0, 0.0, 1.0], 4.0);
    assert_eq!(pick_voxel_dda(origin, step, &crossings, &map, &chunks), None);
    let (origin, step, crossings) = trace([0.5, 0.5, 0.5], [0.0, 0.0, 1.0], 20.0);
    assert!(pick_voxel_dda(origin, step, &crossings, &map, &chunks).is_some());
}

#[test]
fn ray_that_starts_in_a_solid_voxel_hits_its_top() {
    let (map, chunks) = world_with(&[Int3::new(2, 2, 2)]);
    let (origin, step, crossings) = trace([2.5, 2.5, 2.5], [1.0, 0.0, 0.0], 128.0);
    let hit = pick_voxel_dda(origin, step, &crossings, &map, &chunks).unwrap();
    assert_eq!(hit, build_hit(Int3::new(2, 2, 2), VoxelFace::PosY));
}

#[test]
fn ray_without_direction_hits_nothing() {
    let (map, chunks) = world_with(&[Int3::new(2, 2, 2)]);
    let crossings = vec![Axis::X, Axis::Y];
    assert_eq!(pick_voxel_dda(Int3::new(2, 2, 2), Int3::new(0, 0, 0), &crossings, &map, &chunks), None);
}

#[test]
fn ray_outside_loaded_chunks_hits_nothing() {
    let (map, chunks) = world_with(&[]);
    assert!(!is_solid(Int3::new(1000, 0, 0), &map, &chunks));
    let (origin, step, crossings) = trace([1000.5, 0.5, 0.5], [1.0, 0.0, 0.0], 10.0);
    assert_eq!(pick_voxel_dda(origin, step, &crossings, &map, &chunks), None);
}

#[test]
fn ray_at_the_end_of_the_grid_stops() {
    let (map, chunks) = world_with(&[]);
    let crossings = vec![Axis::X, Axis::X, Axis::X];
    assert_eq!(pick_voxel_dda(Int3::new(i32::MAX - 1, 0, 0), Int3::new(1, 0, 0), &crossings, &map, &chunks), None);
    assert_eq!(cross_plane(Int3::new(i32::MAX, 0, 0), Int3::new(1, 0, 0), Axis::X), None);
}

#[test]
fn solidity_follows_the_world() {
    let (map, chunks) = world_with(&[Int3::new(-1, 0, 0), Int3::new(33, 2, -30)]);
    assert!(is_solid(Int3::new(-1, 0, 0), &map, &chunks));
    assert!(is_solid(Int3::new(33, 2, -30), &map, &chunks));
    assert!(!is_solid(Int3::new(0, 0, 0), &map, &chunks));
    assert!(!is_solid(Int3::new(31, 0, 0), &map, &chunks));
}

#[test]
fn ties_go_to_x_then_y_then_z() {
    assert_eq!(nearest_axis(true, true, true), Axis::X);
    assert_eq!(nearest_axis(true, true, false), Axis::X);
    assert_eq!(nearest_axis(false, true, true), Axis::Y);
    assert_eq!(nearest_axis(true, false, true), Axis::Y);
    assert_eq!(nearest_axis(false, false, true), Axis::Y);
    assert_eq!(nearest_axis(true, false, false), Axis::Z);
    assert_eq!(nearest_axis(false, true, false), Axis::Z);
    assert_eq!(nearest_axis(false, false, false), Axis::Z);
}

#[test]
fn ray_step_is_the_sign_of_the_direction() {
    assert_eq!(ray_step(true, false), 1);
    assert_eq!(ray_step(false, true), -1);
    assert_eq!(ray_step(false, false), 0);
}

#[test]
fn crossing_a_plane_enters_through_the_face_that_looks_back() {
    let cell = Int3::new(4, 5, 6);
    let forward = Int3::new(1, 1, 1);
    let backward = Int3::new(-1, -1, -1);
    assert_eq!(cross_plane(cell, forward, Axis::X), Some((Int3::new(5, 5, 6), VoxelFace::NegX)));
    assert_eq!(cross_plane(cell, forward, Axis::Y), Some((Int3::new(4, 6, 6), VoxelFace::NegY)));
    assert_eq!(cross_plane(cell, forward, Axis::Z), Some((Int3::new(4, 5, 7), VoxelFace::NegZ)));
    assert_eq!(cross_plane(cell, backward, Axis::X), Some((Int3::new(3, 5, 6), VoxelFace::PosX)));
    assert_eq!(cross_plane(cell, backward, Axis::Y), Some((Int3::new(4, 4, 6), VoxelFace::PosY)));
    assert_eq!(cross_plane(cell, backward, Axis::Z), Some((Int3::new(4, 5, 5), VoxelFace::PosZ)));
}

#[test]
fn face_normals_point_outward() {
    assert_eq!(VoxelFace::PosX.normal_i(), Int3::new(1, 0, 0));
    assert_eq!(VoxelFace::NegX.normal_i(), Int3::new(-1, 0, 0));
    assert_eq!(VoxelFace::PosY.normal_i(), Int3::new(0, 1, 0));
    assert_eq!(VoxelFace::NegY.normal_i(), Int3::new(0, -1, 0));
    assert_eq!(VoxelFace::PosZ.normal_i(), Int3::new(0, 0, 1));
    assert_eq!(VoxelFace::NegZ.normal_i(), Int3::new(0, 0, -1));
}

#[test]
fn right_click_clears_the_hit_voxel_and_marks_its_chunk_dirty() {
    let (map, mut chunks) = world_with(&[Int3::new(0, 0, 0), Int3::new(1, 0, 0)]);
    let (origin, step, crossings) = trace([0.5, 0.5, -5.0], [0.0, 0.0, 1.0], 128.0);
    let hit = pick_voxel_dda(origin, step, &crossings, &map, &chunks).unwrap();
    assert!(!chunk_of(&map, &chunks, hit.chunk).is_dirty());
    on_voxel_clicked(VoxelClicked { hit, button: ClickButton::Right }, Voxel::new(3), &map, &mut chunks);
    let chunk = chunk_of(&map, &chunks, Int3::new(0, 0, 0));
    assert!(chunk.get(0, 0, 0).is_air());
    assert!(chunk.get(1, 0, 0).is_solid());
    assert!(chunk.is_dirty());
    assert!(!chunk_of(&map, &chunks, Int3::new(1, 0, 0)).is_dirty());
    assert!(!is_solid(Int3::new(0, 0, 0), &map, &chunks));
}

#[test]
fn left_click_on_a_top_face_places_a_voxel_above() {
    let (map, mut chunks) = world_with(&[Int3::new(4, 4, 4)]);
    let hit = build_hit(Int3::new(4, 4, 4), VoxelFace::PosY);
    on_voxel_clicked(VoxelClicked { hit, button: ClickButton::Left }, Voxel::new(2), &map, &mut chunks);
    let chunk = chunk_of(&map, &chunks, Int3::new(0, 0, 0));
    assert_eq!(chunk.get(4, 5, 4), Voxel::new(2));
    assert_eq!(chunk.get(4, 4, 4), Voxel::new(3));
    assert!(chunk.is_dirty());
}

#[test]
fn left_click_at_the_top_of_a_chunk_places_in_the_chunk_above() {
    let (map, mut chunks) = world_with(&[Int3::new(4, 31, 4)]);
    let hit = build_hit(Int3::new(4, 31, 4), VoxelFace::PosY);
    assert_eq!(adjacent_voxel(hit), Some((Int3::new(0, 1, 0), Int3::new(4, 0, 4))));
    on_voxel_clicked(VoxelClicked { hit, button: ClickButton::Left }, Voxel::new(2), &map, &mut chunks);
    let above = chunk_of(&map, &chunks, Int3::new(0, 1, 0));
    assert_eq!(above.get(4, 0, 4), Voxel::new(2));
    assert!(above.is_dirty());
    assert!(!chunk_of(&map, &chunks, Int3::new(0, 0, 0)).is_dirty());
    assert!(is_solid(Int3::new(4, 32, 4), &map, &chunks));
}

#[test]
fn left_click_into_an_unloaded_chunk_changes_nothing() {
    let (map, mut chunks) = world_with(&[Int3::new(63, 0, 0)]);
    let hit = build_hit(Int3::new(63, 0, 0), VoxelFace::PosX);
    assert_eq!(adjacent_voxel(hit), Some((Int3::new(2, 0, 0), Int3::new(0, 0, 0))));
    on_voxel_clicked(VoxelClicked { hit, button: ClickButton::Left }, Voxel::new(2), &map, &mut chunks);
    assert!(!chunk_of(&map, &chunks, Int3::new(1, 0, 0)).is_dirty());
    assert!(!is_solid(Int3::new(64, 0, 0), &map, &chunks));
}

#[test]
fn other_buttons_and_invalid_hits_change_nothing() {
    let (map, mut chunks) = world_with(&[Int3::new(0, 0, 0)]);
    let hit = build_hit(Int3::new(0, 0, 0), VoxelFace::PosY);
    on_voxel_clicked(VoxelClicked { hit, button: ClickButton::Other }, Voxel::new(2), &map, &mut chunks);
    assert!(!chunk_of(&map, &chunks, Int3::new(0, 0, 0)).is_dirty());
    let broken = VoxelHit { local: Int3::new(32, 0, 0), ..hit };
    on_voxel_clicked(VoxelClicked { hit: broken, button: ClickButton::Right }, Voxel::new(2), &map, &mut chunks);
    on_voxel_clicked(VoxelClicked { hit: broken, button: ClickButton::Left }, Voxel::new(2), &map, &mut chunks);
    let negative = VoxelHit { local: Int3::new(0, -1, 0), ..hit };
    on_voxel_clicked(VoxelClicked { hit: negative, button: ClickButton::Right }, Voxel::new(2), &map, &mut chunks);
    assert!(!chunk_of(&map, &chunks, Int3::new(0, 0, 0)).is_dirty());
    assert!(is_solid(Int3::new(0, 0, 0), &map, &chunks));
}

#[test]
fn adjacent_cell_wraps_at_every_edge() {
    let at = |local: Int3, face| VoxelHit { chunk: Int3::new(5, 6, 7), local, world: Int3::new(0, 0, 0), face };
    assert_eq!(
        adjacent_voxel(at(Int3::new(31, 1, 2), VoxelFace::PosX)),
        Some((Int3::new(6, 6, 7), Int3::new(0, 1, 2)))
    );
    assert_eq!(
        adjacent_voxel(at(Int3::new(0, 1, 2), VoxelFace::NegX)),
        Some((Int3::new(4, 6, 7), Int3::new(31, 1, 2)))
    );
    assert_eq!(
        adjacent_voxel(at(Int3::new(3, 0, 2), VoxelFace::NegY)),
        Some((Int3::new(5, 5, 7), Int3::new(3, 31, 2)))
    );
    assert_eq!(
        adjacent_voxel(at(Int3::new(3, 1, 31), VoxelFace::PosZ)),
        Some((Int3::new(5, 6, 8), Int3::new(3, 1, 0)))
    );
    assert_eq!(
        adjacent_voxel(at(Int3::new(3, 1, 0), VoxelFace::NegZ)),
        Some((Int3::new(5, 6, 6), Int3::new(3, 1, 31)))
    );
    assert_eq!(
        adjacent_voxel(at(Int3::new(3, 1, 2), VoxelFace::PosY)),
        Some((Int3::new(5, 6, 7), Int3::new(3, 2, 2)))
    );
    assert_eq!(
        adjacent_voxel(at(Int3::new(3, 1, 2), VoxelFace::NegX)),
        Some((Int3::new(5, 6, 7), Int3::new(2, 1, 2)))
    );
}

#[test]
fn adjacent_cell_is_none_where_it_cannot_be_named() {
    let hit = VoxelHit {
        chunk: Int3::new(i32::MAX, 0, 0),
        local: Int3::new(31, 0, 0),
        world: Int3::new(0, 0, 0),
        face: VoxelFace::PosX,
    };
    assert_eq!(adjacent_voxel(hit), None);
    assert_eq!(adjacent_voxel(VoxelHit { face: VoxelFace::NegX, ..hit }), Some((hit.chunk, Int3::new(30, 0, 0))));
    assert_eq!(adjacent_voxel(VoxelHit { local: Int3::new(32, 0, 0), ..hit }), None);
    assert_eq!(adjacent_voxel(VoxelHit { local: Int3::new(0, 0, -1), ..hit }), None);
}

#[test]
fn clicks_are_raised_only_on_a_hovered_voxel() {
    let hit = build_hit(Int3::new(1, 2, 3), VoxelFace::NegZ);
    assert!(emit_voxel_click_event(None, true, true).is_empty());
    assert!(emit_voxel_click_event(Some(hit), false, false).is_empty());
    assert_eq!(
        emit_voxel_click_event(Some(hit), true, false),
        vec![VoxelClicked { hit, button: ClickButton::Left }]
    );
    assert_eq!(
        emit_voxel_click_event(Some(hit), false, true),
        vec![VoxelClicked { hit, button: ClickButton::Right }]
    );
    assert_eq!(
        emit_voxel_click_event(Some(hit), true, true),
        vec![VoxelClicked { hit, button: ClickButton::Left }, VoxelClicked { hit, button: ClickButton::Right }]
    );
}

#[test]
fn build_hit_splits_the_world_cell() {
    let hit = build_hit(Int3::new(-1, 40, 64), VoxelFace::PosX);
    assert_eq!(hit.world, Int3::new(-1, 40, 64));
    assert_eq!(hit.chunk, Int3::new(-1, 1, 2));
    assert_eq!(hit.local, Int3::new(31, 8, 0));
    assert_eq!(hit.face, VoxelFace::PosX);
}

#[test]
fn face_and_direction_share_a_normal() {
    let faces = [VoxelFace::PosX, VoxelFace::NegX, VoxelFace::PosY, VoxelFace::NegY, VoxelFace::PosZ, VoxelFace::NegZ];
    for face in faces {
        assert_eq!(face.direction().normal(), face.normal_i());
    }
}

#[test]
fn no_voxel_is_hit_beyond_the_reach() {
    let (map, chunks) = world_with(&[Int3::new(0, 0, 0)]);
    // the voxel is entered at distance 5
    let (origin, step, crossings) = trace([0.5, 0.5, -5.0], [0.0, 0.0, 1.0], 4.5);
    assert_eq!(crossings, vec![Axis::Z; 4]);
    assert_eq!(pick_voxel_dda(origin, step, &crossings, &map, &chunks), None);
    let (origin, step, crossings) = trace([0.5, 0.5, -5.0], [0.0, 0.0, 1.0], 4.999);
    assert_eq!(crossings.len(), 4);
    assert_eq!(pick_voxel_dda(origin, step, &crossings, &map, &chunks), None);
    let (origin, step, crossings) = trace([0.5, 0.5, -5.0], [0.0, 0.0, 1.0], 5.0);
    assert_eq!(crossings, vec![Axis::Z; 5]);
    let hit = pick_voxel_dda(origin, step, &crossings, &map, &chunks).unwrap();
    assert_eq!(hit.world, Int3::new(0, 0, 0));
    assert_eq!(hit.face, VoxelFace::NegZ);
}

#[test]
fn a_ray_without_reach_crosses_no_plane() {
    let (origin, step, crossings) = trace([0.5, 0.5, 0.5], [1.0, 1.0, 0.0], 0.0);
    assert_eq!(origin, Int3::new(0, 0, 0));
    assert_eq!(step, Int3::new(1, 1, 0));
    assert!(crossings.is_empty());
}

#[test]
fn next_crossing_is_the_nearest_axis_within_reach() {
    assert_eq!(next_crossing(true, true, true, true, false, false), Some(Axis::X));
    assert_eq!(next_crossing(true, true, true, false, true, true), None);
    assert_eq!(next_crossing(false, true, true, true, true, false), Some(Axis::Y));
    assert_eq!(next_crossing(false, true, true, true, false, true), None);
    assert_eq!(next_crossing(false, false, false, false, false, true), Some(Axis::Z));
    assert_eq!(next_crossing(false, false, false, true, true, false), None);
    assert_eq!(next_crossing(true, false, false, true, true, true), Some(Axis::Z));
}
