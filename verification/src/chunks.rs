//! Chunk arithmetic of the world preview: which chunk holds a block, where the
//! preview patch may be centred, which chunks the patch needs, and where a chunk
//! or a block lies relative to the patch.
use vstd::prelude::*;

verus! {

/// Blocks along each horizontal side of a terrain chunk.
pub const TERRAIN_CHUNK_SIZE: i32 = 32;

/// The preview patch reaches this many chunks from its centre in each direction.
pub const CHUNK_RADIUS: i32 = 2;

/// The chunks of the patch along one side.
pub const PATCH_SIDE: i32 = 5;

/// `v as i32` for a `u32`: values above `i32::MAX` wrap to negative ones.
pub open spec fn wrap_i32(v: u32) -> int {
    if v <= 0x7fff_ffff {
        v as int
    } else {
        v - 0x1_0000_0000
    }
}

pub fn wrap_to_i32(v: u32) -> (r: i32)
    ensures
        r as int == wrap_i32(v),
{
    if v <= 0x7fff_ffff {
        v as i32
    } else {
        ((v - 0x8000_0000) as i32) + i32::MIN
    }
}

/// The chunk that holds block column `w` (floor division by the chunk size).
pub open spec fn chunk_coord_of(w: int) -> int {
    w / TERRAIN_CHUNK_SIZE as int
}

fn chunk_coord(w: i32) -> (r: i32)
    ensures
        r as int == chunk_coord_of(w as int),
{
    if w >= 0 {
        w / 32
    } else {
        let m = -(w + 1);
        let q = m / 32;
        assert(-(q as int) - 1 == (w as int) / 32) by (nonlinear_arith)
            requires
                m as int == -(w as int + 1),
                q as int == m as int / 32,
                m >= 0,
        {
        }
        -q - 1
    }
}

/// The chunk that holds a block position.
pub fn chunk_pos_for_wpos(wpos: (i32, i32)) -> (r: (i32, i32))
    ensures
        r.0 as int == chunk_coord_of(wpos.0 as int),
        r.1 as int == chunk_coord_of(wpos.1 as int),
{
    (chunk_coord(wpos.0), chunk_coord(wpos.1))
}

/// The range of centres along one axis of `dim` chunks for which the patch stays
/// inside the world where it can: from `min(radius, last)` to
/// `max(last - radius, that minimum)`, with `last = (dim - 1) as i32`.
pub open spec fn center_range(dim: u32) -> (int, int) {
    let last = wrap_i32(if dim == 0 {
        0
    } else {
        (dim - 1) as u32
    });
    let lo = if CHUNK_RADIUS < last {
        CHUNK_RADIUS as int
    } else {
        last
    };
    let hi = if last - CHUNK_RADIUS > lo {
        last - CHUNK_RADIUS
    } else {
        lo
    };
    (lo, hi)
}

/// `v` clamped to `[lo, hi]`.
pub open spec fn clamp_to(v: int, lo: int, hi: int) -> int {
    if v < lo {
        lo
    } else if v > hi {
        hi
    } else {
        v
    }
}

/// A dimension for which the centre range can be computed without overflow.
pub open spec fn dimension_in_range(dim: u32) -> bool {
    wrap_i32(
        if dim == 0 {
            0
        } else {
            (dim - 1) as u32
        },
    ) - CHUNK_RADIUS >= i32::MIN
}

fn center_bounds(dim: u32) -> (r: (i32, i32))
    requires
        dimension_in_range(dim),
    ensures
        r.0 as int == center_range(dim).0,
        r.1 as int == center_range(dim).1,
{
    let last = wrap_to_i32(dim.saturating_sub(1));
    let lo = if CHUNK_RADIUS < last {
        CHUNK_RADIUS
    } else {
        last
    };
    let hi = if last - CHUNK_RADIUS > lo {
        last - CHUNK_RADIUS
    } else {
        lo
    };
    (lo, hi)
}

/// Clamps a requested patch centre so that the patch stays inside a world of
/// `dimensions` chunks (where the world is large enough).
pub fn clamp_center_chunk_pos_to_dimensions(chunk_pos: (i32, i32), dimensions: (u32, u32)) -> (r: (
    i32,
    i32,
))
    requires
        dimension_in_range(dimensions.0),
        dimension_in_range(dimensions.1),
    ensures
        r.0 as int == clamp_to(
            chunk_pos.0 as int,
            center_range(dimensions.0).0,
            center_range(dimensions.0).1,
        ),
        r.1 as int == clamp_to(
            chunk_pos.1 as int,
            center_range(dimensions.1).0,
            center_range(dimensions.1).1,
        ),
{
    let (min_x, max_x) = center_bounds(dimensions.0);
    let (min_y, max_y) = center_bounds(dimensions.1);
    let x = if chunk_pos.0 < min_x {
        min_x
    } else if chunk_pos.0 > max_x {
        max_x
    } else {
        chunk_pos.0
    };
    let y = if chunk_pos.1 < min_y {
        min_y
    } else if chunk_pos.1 > max_y {
        max_y
    } else {
        chunk_pos.1
    };
    (x, y)
}

/// The `k`-th cell of the patch around `center`, row by row from the lowest `y`
/// and, within a row, from the lowest `x`.
pub open spec fn patch_cell(center: (i32, i32), k: int) -> (int, int) {
    (center.0 + k % PATCH_SIDE as int - CHUNK_RADIUS, center.1 + k / PATCH_SIDE as int - CHUNK_RADIUS)
}

/// Whether a chunk position lies inside a world of `dimensions` chunks.
pub open spec fn chunk_in_world(p: (i32, i32), dimensions: (u32, u32)) -> bool {
    p.0 >= 0 && p.1 >= 0 && p.0 < wrap_i32(dimensions.0) && p.1 < wrap_i32(dimensions.1)
}

/// The cells of the patch, as positions.
pub open spec fn patch_cells(center: (i32, i32)) -> Seq<(i32, i32)> {
    Seq::new(
        (PATCH_SIDE * PATCH_SIDE) as nat,
        |k: int| (patch_cell(center, k).0 as i32, patch_cell(center, k).1 as i32),
    )
}

/// The chunks that the patch around `center` needs: its cells inside the world,
/// in row order.
pub open spec fn required_chunks(center: (i32, i32), dimensions: (u32, u32)) -> Seq<(i32, i32)> {
    patch_cells(center).filter(|p: (i32, i32)| chunk_in_world(p, dimensions))
}

/// A centre whose patch cells are all representable.
pub open spec fn center_in_range(center: (i32, i32)) -> bool {
    &&& i32::MIN + CHUNK_RADIUS <= center.0 <= i32::MAX - CHUNK_RADIUS
    &&& i32::MIN + CHUNK_RADIUS <= center.1 <= i32::MAX - CHUNK_RADIUS
}

/// The chunk positions of the patch around `center` that lie inside the world.
pub fn required_chunk_positions(center_chunk_pos: (i32, i32), dimensions: (u32, u32)) -> (r: Vec<
    (i32, i32),
>)
    requires
        center_in_range(center_chunk_pos),
    ensures
        r@ == required_chunks(center_chunk_pos, dimensions),
{
    let width = wrap_to_i32(dimensions.0);
    let height = wrap_to_i32(dimensions.1);
    let ghost cells = patch_cells(center_chunk_pos);
    let ghost pred = |p: (i32, i32)| chunk_in_world(p, dimensions);
    let mut out: Vec<(i32, i32)> = Vec::new();
    let mut k: i32 = 0;
    while k < PATCH_SIDE * PATCH_SIDE
        invariant
            0 <= k <= PATCH_SIDE * PATCH_SIDE,
            center_in_range(center_chunk_pos),
            width as int == wrap_i32(dimensions.0),
            height as int == wrap_i32(dimensions.1),
            cells == patch_cells(center_chunk_pos),
            pred == (|p: (i32, i32)| chunk_in_world(p, dimensions)),
            out@ == cells.take(k as int).filter(pred),
        decreases PATCH_SIDE * PATCH_SIDE - k,
    {
        let pos = (
            center_chunk_pos.0 + (k % PATCH_SIDE - CHUNK_RADIUS),
            center_chunk_pos.1 + (k / PATCH_SIDE - CHUNK_RADIUS),
        );
        assert(pos == cells[k as int]);
        proof {
            assert(cells.take(k + 1) =~= cells.take(k as int).push(pos));
            cells.take(k as int).lemma_filter_push(pos, pred);
        }
        if !(pos.0 < 0 || pos.1 < 0 || pos.0 >= width || pos.1 >= height) {
            out.push(pos);
        }
        k = k + 1;
    }
    assert(cells.take(PATCH_SIDE * PATCH_SIDE) =~= cells);
    out
}

/// Where a chunk begins, in blocks, relative to the chunk at the patch centre.
pub fn relative_chunk_origin(chunk_pos: (i32, i32), center_chunk_pos: (i32, i32)) -> (r: (
    i32,
    i32,
))
    requires
        i32::MIN <= (chunk_pos.0 - center_chunk_pos.0) * TERRAIN_CHUNK_SIZE <= i32::MAX,
        i32::MIN <= (chunk_pos.1 - center_chunk_pos.1) * TERRAIN_CHUNK_SIZE <= i32::MAX,
    ensures
        r.0 == (chunk_pos.0 - center_chunk_pos.0) * TERRAIN_CHUNK_SIZE,
        r.1 == (chunk_pos.1 - center_chunk_pos.1) * TERRAIN_CHUNK_SIZE,
{
    let dx = chunk_pos.0 as i64 - center_chunk_pos.0 as i64;
    let dy = chunk_pos.1 as i64 - center_chunk_pos.1 as i64;
    ((dx * 32) as i32, (dy * 32) as i32)
}

/// The block position of a block given by its position inside a chunk.
pub fn block_world_pos(chunk_pos: (i32, i32), local_pos: (i32, i32, i32)) -> (r: (i32, i32, i32))
    requires
        i32::MIN <= chunk_pos.0 * TERRAIN_CHUNK_SIZE + local_pos.0 <= i32::MAX,
        i32::MIN <= chunk_pos.1 * TERRAIN_CHUNK_SIZE + local_pos.1 <= i32::MAX,
    ensures
        r.0 == chunk_pos.0 * TERRAIN_CHUNK_SIZE + local_pos.0,
        r.1 == chunk_pos.1 * TERRAIN_CHUNK_SIZE + local_pos.1,
        r.2 == local_pos.2,
{
    let x = chunk_pos.0 as i64 * 32 + local_pos.0 as i64;
    let y = chunk_pos.1 as i64 * 32 + local_pos.1 as i64;
    (x as i32, y as i32, local_pos.2)
}

/// The six faces of a block.
#[derive(Clone, Copy, PartialEq, Eq, Debug)]
pub enum Face {
    PosX,
    NegX,
    PosY,
    NegY,
    PosZ,
    NegZ,
}

impl Face {
    /// All faces, in the order the mesher visits them.
    pub fn all() -> (r: [Face; 6])
        ensures
            r@ == seq![Face::PosX, Face::NegX, Face::PosY, Face::NegY, Face::PosZ, Face::NegZ],
    {
        let r = [Face::PosX, Face::NegX, Face::PosY, Face::NegY, Face::PosZ, Face::NegZ];
        assert(r@ =~= seq![Face::PosX, Face::NegX, Face::PosY, Face::NegY, Face::PosZ, Face::NegZ]);
        r
    }

    /// The unit step to the neighbouring block across this face.
    pub fn normal(self) -> (r: (i32, i32, i32))
        ensures
            r == match self {
                Face::PosX => (1i32, 0i32, 0i32),
                Face::NegX => (-1i32, 0i32, 0i32),
                Face::PosY => (0i32, 1i32, 0i32),
                Face::NegY => (0i32, -1i32, 0i32),
                Face::PosZ => (0i32, 0i32, 1i32),
                Face::NegZ => (0i32, 0i32, -1i32),
            },
    {
        match self {
            Face::PosX => (1, 0, 0),
            Face::NegX => (-1, 0, 0),
            Face::PosY => (0, 1, 0),
            Face::NegY => (0, -1, 0),
            Face::PosZ => (0, 0, 1),
            Face::NegZ => (0, 0, -1),
        }
    }
}

/// The world features that the preview reads, as switches.
#[derive(Clone, Copy, PartialEq, Eq, Debug)]
pub struct WorldFeatureFlags {
    pub caverns: bool,
    pub caves: bool,
    pub rocks: bool,
    pub shrubs: bool,
    pub trees: bool,
    pub scatter: bool,
    pub paths: bool,
    pub spots: bool,
    pub peak_naming: bool,
    pub biome_naming: bool,
    pub train_tracks: bool,
}

/// The switches in a fixed order.
pub open spec fn switches(f: WorldFeatureFlags) -> Seq<bool> {
    seq![
        f.caverns,
        f.caves,
        f.rocks,
        f.shrubs,
        f.trees,
        f.scatter,
        f.paths,
        f.spots,
        f.peak_naming,
        f.biome_naming,
        f.train_tracks,
    ]
}

/// How many of `s` are true.
pub open spec fn count_true(s: Seq<bool>) -> nat
    decreases s.len(),
{
    if s.len() == 0 {
        0
    } else {
        count_true(s.drop_last()) + if s.last() {
            1nat
        } else {
            0nat
        }
    }
}

/// How many of the switches are on.
pub open spec fn enabled_count(f: WorldFeatureFlags) -> nat {
    count_true(switches(f))
}

pub fn count_enabled_features(features: &WorldFeatureFlags) -> (r: usize)
    ensures
        r == enabled_count(*features),
{
    let switches = [
        features.caverns,
        features.caves,
        features.rocks,
        features.shrubs,
        features.trees,
        features.scatter,
        features.paths,
        features.spots,
        features.peak_naming,
        features.biome_naming,
        features.train_tracks,
    ];
    assert(switches@ =~= self::switches(*features));
    let mut n: usize = 0;
    let mut i: usize = 0;
    while i < 11
        invariant
            i <= 11,
            switches@.len() == 11,
            n == count_true(switches@.take(i as int)),
            n <= i,
        decreases 11 - i,
    {
        assert(switches@.take(i + 1).drop_last() =~= switches@.take(i as int));
        if switches[i] {
            n = n + 1;
        }
        i = i + 1;
    }
    assert(switches@.take(11) =~= switches@);
    n
}

/// The features that terrain chunks of the preview are generated with: those of
/// the world, without train tracks.
pub fn terrain_chunk_preview_features(features: &WorldFeatureFlags) -> (r: WorldFeatureFlags)
    ensures
        r == (WorldFeatureFlags { train_tracks: false, ..*features }),
{
    WorldFeatureFlags { train_tracks: false, ..*features }
}

/// Dropping train tracks switches off at most that one feature.
pub proof fn law_preview_features_drop_only_tracks(f: WorldFeatureFlags)
    ensures
        enabled_count(WorldFeatureFlags { train_tracks: false, ..f }) + (if f.train_tracks {
            1nat
        } else {
            0nat
        }) == enabled_count(f),
{
    let g = WorldFeatureFlags { train_tracks: false, ..f };
    assert(switches(g).drop_last() =~= switches(f).drop_last());
}

/// An entry of a chunk's entity spawns: one entity, or a group of several.
#[derive(Clone, Copy, PartialEq, Eq, Debug)]
pub enum EntitySpawnSize {
    Entity,
    Group(usize),
}

pub open spec fn spawn_entities(s: EntitySpawnSize) -> nat {
    match s {
        EntitySpawnSize::Entity => 1,
        EntitySpawnSize::Group(n) => n as nat,
    }
}

/// How many entities the spawns hold in all.
pub open spec fn total_spawned(spawns: Seq<EntitySpawnSize>) -> nat
    decreases spawns.len(),
{
    if spawns.len() == 0 {
        0
    } else {
        total_spawned(spawns.drop_last()) + spawn_entities(spawns.last())
    }
}

pub fn count_entity_spawns(spawns: &[EntitySpawnSize]) -> (r: usize)
    requires
        total_spawned(spawns@) <= usize::MAX,
    ensures
        r == total_spawned(spawns@),
{
    let mut total: usize = 0;
    let mut i: usize = 0;
    while i < spawns.len()
        invariant
            i <= spawns.len(),
            total == total_spawned(spawns@.take(i as int)),
            total_spawned(spawns@) <= usize::MAX,
        decreases spawns.len() - i,
    {
        proof {
            assert(spawns@.take(i + 1).drop_last() =~= spawns@.take(i as int));
            lemma_total_spawned_prefix(spawns@, i + 1);
        }
        let n = match spawns[i] {
            EntitySpawnSize::Entity => 1,
            EntitySpawnSize::Group(n) => n,
        };
        total = total + n;
        i = i + 1;
    }
    assert(spawns@.take(i as int) =~= spawns@);
    total
}

proof fn lemma_total_spawned_prefix(s: Seq<EntitySpawnSize>, k: int)
    requires
        0 <= k <= s.len(),
    ensures
        total_spawned(s.take(k)) <= total_spawned(s),
    decreases s.len() - k,
{
    if k == s.len() {
        assert(s.take(k) =~= s);
    } else {
        lemma_total_spawned_prefix(s, k + 1);
        assert(s.take(k + 1).drop_last() =~= s.take(k));
    }
}

/// What a face check knows of the neighbouring block.
#[derive(Clone, Copy, PartialEq, Eq, Debug)]
pub struct NeighborBlock {
    pub filled: bool,
    pub liquid: bool,
}

/// A face is drawn when the neighbour across it lies outside the chunk; a liquid
/// face when the neighbour is not liquid; any other face when the neighbour is not
/// filled.
pub open spec fn face_shown(block_liquid: bool, neighbor: Option<NeighborBlock>) -> bool {
    match neighbor {
        None => true,
        Some(n) => if block_liquid {
            !n.liquid
        } else {
            !n.filled
        },
    }
}

pub fn face_visible(block_liquid: bool, neighbor: Option<NeighborBlock>) -> (r: bool)
    ensures
        r == face_shown(block_liquid, neighbor),
{
    match neighbor {
        Some(n) => if block_liquid {
            !n.liquid
        } else {
            !n.filled
        },
        None => true,
    }
}

/// The preview needs a world of at least two chunks along each side.
pub fn world_large_enough(dimensions: (u32, u32)) -> (r: bool)
    ensures
        r == (dimensions.0 >= 2 && dimensions.1 >= 2),
{
    dimensions.0 >= 2 && dimensions.1 >= 2
}

// ---------------------------------------------------------------------------
// Laws of the chunk arithmetic
// ---------------------------------------------------------------------------
/// A block column lies inside the chunk that `chunk_pos_for_wpos` names for it.
pub proof fn law_block_inside_its_chunk(w: int)
    ensures
        chunk_coord_of(w) * TERRAIN_CHUNK_SIZE <= w < chunk_coord_of(w) * TERRAIN_CHUNK_SIZE
            + TERRAIN_CHUNK_SIZE,
{
}

/// Clamping a clamped centre changes nothing, and the clamped centre lies within
/// the centre range.
pub proof fn law_clamp_center_idempotent(v: int, dim: u32)
    ensures
        center_range(dim).0 <= center_range(dim).1,
        center_range(dim).0 <= clamp_to(v, center_range(dim).0, center_range(dim).1)
            <= center_range(dim).1,
        clamp_to(
            clamp_to(v, center_range(dim).0, center_range(dim).1),
            center_range(dim).0,
            center_range(dim).1,
        ) == clamp_to(v, center_range(dim).0, center_range(dim).1),
{
}

/// The patch needs at most 25 chunks, all inside the world.
pub proof fn law_required_chunks_inside_world(center: (i32, i32), dimensions: (u32, u32))
    ensures
        required_chunks(center, dimensions).len() <= PATCH_SIDE * PATCH_SIDE,
        forall|i: int|
            0 <= i < required_chunks(center, dimensions).len() ==> chunk_in_world(
                #[trigger] required_chunks(center, dimensions)[i],
                dimensions,
            ),
{
    let pred = |p: (i32, i32)| chunk_in_world(p, dimensions);
    patch_cells(center).lemma_filter_len(pred);
    assert forall|i: int| 0 <= i < required_chunks(center, dimensions).len() implies chunk_in_world(
        #[trigger] required_chunks(center, dimensions)[i],
        dimensions,
    ) by {
        patch_cells(center).lemma_filter_pred(pred, i);
    }
}

/// A block face is drawn unless the neighbour across it hides it: a liquid face
/// is hidden by liquid, any other face by a filled block; faces on the edge of
/// the chunk are always drawn.
pub proof fn law_face_visibility(block_liquid: bool, neighbor: Option<NeighborBlock>)
    ensures
        neighbor is None ==> face_shown(block_liquid, neighbor),
        neighbor matches Some(n) ==> (!face_shown(block_liquid, neighbor) <==> ((block_liquid
            && n.liquid) || (!block_liquid && n.filled))),
{
}

} // verus!
