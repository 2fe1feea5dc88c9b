use voxworld_web::patch::{
    chunks_to_generate, patch_totals, ChunkMeshStats, PatchMeshError, PatchTotals,
};

fn chunk(min_z: i32, max_z: i32, faces: usize, indices: usize) -> ChunkMeshStats {
    ChunkMeshStats {
        min_z,
        max_z,
        face_count: faces,
        index_count: indices,
        filled_blocks: faces * 2,
        liquid_blocks: 1,
        sprite_props: 3,
        entity_spawns: 4,
    }
}

#[test]
fn patch_without_chunks_is_refused() {
    assert_eq!(patch_totals(&[]), Err(PatchMeshError::NoChunks));
}

#[test]
fn patch_without_vertical_span_is_refused() {
    assert_eq!(
        patch_totals(&[chunk(10, 10, 1, 6)]),
        Err(PatchMeshError::NoVerticalSpan)
    );
    assert_eq!(
        patch_totals(&[chunk(10, 12, 1, 6), chunk(20, 5, 1, 6)]).map(|t| (t.min_z, t.max_z)),
        Ok((10, 12))
    );
}

#[test]
fn patch_without_faces_is_refused() {
    assert_eq!(
        patch_totals(&[chunk(0, 40, 0, 0), chunk(-5, 30, 0, 0)]),
        Err(PatchMeshError::NoVisibleFaces)
    );
}

#[test]
fn patch_totals_add_up() {
    let totals = patch_totals(&[chunk(3, 40, 5, 30), chunk(-2, 25, 0, 0), chunk(7, 60, 2, 12)]);
    assert_eq!(
        totals,
        Ok(PatchTotals {
            min_z: -2,
            max_z: 60,
            generated_chunks: 3,
            terrain_faces: 7,
            filled_blocks: 14,
            liquid_blocks: 3,
            sprite_props: 9,
            entity_spawns: 12,
        })
    );
}

#[test]
fn only_uncached_chunks_are_generated() {
    let required = [(0, 0), (1, 0), (2, 0), (0, 1), (1, 1)];
    let cached = [(1, 0), (1, 1), (9, 9)];
    assert_eq!(chunks_to_generate(&required, &cached), vec![(0, 0), (2, 0), (0, 1)]);
}

#[test]
fn generation_fills_the_cache() {
    // Every required chunk ends up cached or generated, each generated once.
    let required = [(4, 4), (5, 4), (4, 4), (6, 4)];
    let cached = [(5, 4)];
    let generated = chunks_to_generate(&required, &cached);
    assert_eq!(generated, vec![(4, 4), (6, 4)]);
    for pos in required {
        assert!(cached.contains(&pos) || generated.contains(&pos));
    }
    assert!(chunks_to_generate(&required, &[(4, 4), (5, 4), (6, 4)]).is_empty());
    assert!(chunks_to_generate(&[], &cached).is_empty());
}

#[test]
fn second_pass_generates_nothing() {
    let required = [(0, 0), (1, 0), (0, 1), (1, 1)];
    let mut cached = vec![(1, 0), (7, 7)];
    let generated = chunks_to_generate(&required, &cached);
    assert_eq!(generated, vec![(0, 0), (0, 1), (1, 1)]);
    cached.extend(generated.iter().copied());
    assert_eq!(cached.len(), 5);
    for pos in required {
        assert!(cached.contains(&pos));
    }
    assert!(chunks_to_generate(&required, &cached).is_empty());
}
