use voxworld_web::chunks::{
    block_world_pos, chunk_pos_for_wpos, clamp_center_chunk_pos_to_dimensions,
    count_enabled_features, count_entity_spawns, face_visible, relative_chunk_origin,
    required_chunk_positions, terrain_chunk_preview_features, world_large_enough, wrap_to_i32, EntitySpawnSize, Face,
    NeighborBlock, WorldFeatureFlags,
};

fn flags(all: bool) -> WorldFeatureFlags {
    WorldFeatureFlags {
        caverns: all,
        caves: all,
        rocks: all,
        shrubs: all,
        trees: all,
        scatter: all,
        paths: all,
        spots: all,
        peak_naming: all,
        biome_naming: all,
        train_tracks: all,
    }
}

#[test]
fn chunk_of_block_uses_floor_division() {
    assert_eq!(chunk_pos_for_wpos((0, 31)), (0, 0));
    assert_eq!(chunk_pos_for_wpos((32, 64)), (1, 2));
    assert_eq!(chunk_pos_for_wpos((-1, -32)), (-1, -1));
    assert_eq!(chunk_pos_for_wpos((-33, i32::MIN)), (-2, i32::MIN.div_euclid(32)));
    assert_eq!(chunk_pos_for_wpos((i32::MAX, 100)), (i32::MAX.div_euclid(32), 3));
}

#[test]
fn clamp_center_keeps_patch_inside() {
    assert_eq!(clamp_center_chunk_pos_to_dimensions((0, 0), (32, 32)), (2, 2));
    assert_eq!(clamp_center_chunk_pos_to_dimensions((40, 15), (32, 32)), (29, 15));
    assert_eq!(clamp_center_chunk_pos_to_dimensions((-7, 40), (32, 20)), (2, 17));
}

#[test]
fn clamp_center_small_worlds() {
    assert_eq!(clamp_center_chunk_pos_to_dimensions((5, 5), (2, 3)), (1, 2));
    assert_eq!(clamp_center_chunk_pos_to_dimensions((5, -5), (0, 1)), (0, 0));
    assert_eq!(clamp_center_chunk_pos_to_dimensions((3, 3), (4, 4)), (2, 2));
}

#[test]
fn wrap_to_i32_wraps() {
    assert_eq!(wrap_to_i32(5), 5);
    assert_eq!(wrap_to_i32(u32::MAX), -1);
    assert_eq!(wrap_to_i32(0x8000_0000), i32::MIN);
}

#[test]
fn required_chunks_row_major_inside_world() {
    let all = required_chunk_positions((10, 10), (32, 32));
    assert_eq!(all.len(), 25);
    assert_eq!(all[0], (8, 8));
    assert_eq!(all[1], (9, 8));
    assert_eq!(all[5], (8, 9));
    assert_eq!(all[24], (12, 12));
    let corner = required_chunk_positions((0, 0), (32, 32));
    assert_eq!(corner, vec![(0, 0), (1, 0), (2, 0), (0, 1), (1, 1), (2, 1), (0, 2), (1, 2), (2, 2)]);
    let edge = required_chunk_positions((31, 1), (32, 2));
    assert_eq!(edge, vec![(29, 0), (30, 0), (31, 0), (29, 1), (30, 1), (31, 1)]);
}

#[test]
fn relative_origins_and_block_positions() {
    assert_eq!(relative_chunk_origin((3, 5), (4, 4)), (-32, 32));
    assert_eq!(block_world_pos((2, -1), (5, 6, 70)), (69, -26, 70));
}

#[test]
fn faces_and_normals() {
    let faces = Face::all();
    let normals: Vec<(i32, i32, i32)> = faces.iter().map(|f| f.normal()).collect();
    assert_eq!(normals, vec![(1, 0, 0), (-1, 0, 0), (0, 1, 0), (0, -1, 0), (0, 0, 1), (0, 0, -1)]);
}

#[test]
fn face_visibility() {
    let air = NeighborBlock { filled: false, liquid: false };
    let water = NeighborBlock { filled: false, liquid: true };
    let stone = NeighborBlock { filled: true, liquid: false };
    assert!(face_visible(false, None));
    assert!(face_visible(true, None));
    assert!(face_visible(false, Some(air)));
    assert!(face_visible(false, Some(water)));
    assert!(!face_visible(false, Some(stone)));
    assert!(!face_visible(true, Some(water)));
    assert!(face_visible(true, Some(stone)));
}

#[test]
fn feature_counts() {
    assert_eq!(count_enabled_features(&flags(true)), 11);
    assert_eq!(count_enabled_features(&flags(false)), 0);
    let preview = terrain_chunk_preview_features(&flags(true));
    assert!(!preview.train_tracks && preview.trees);
    assert_eq!(count_enabled_features(&preview), 10);
    let mut some = flags(false);
    some.trees = true;
    some.paths = true;
    assert_eq!(count_enabled_features(&some), 2);
}

#[test]
fn entity_spawn_counts() {
    assert_eq!(count_entity_spawns(&[]), 0);
    assert_eq!(
        count_entity_spawns(&[EntitySpawnSize::Entity, EntitySpawnSize::Group(4), EntitySpawnSize::Group(0), EntitySpawnSize::Entity]),
        6
    );
}

#[test]
fn preview_needs_two_chunks_per_side() {
    assert!(world_large_enough((2, 2)));
    assert!(world_large_enough((32, 64)));
    assert!(!world_large_enough((1, 32)));
    assert!(!world_large_enough((32, 0)));
}
