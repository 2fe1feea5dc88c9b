//! Assembling the preview patch from its chunks: which required chunks still have
//! to be generated, and the totals and checks of the patch mesh (its vertical
//! span, its block and face counts, and when it has nothing to show).
use vstd::prelude::*;

verus! {

/// What the patch needs to know of one generated chunk and its mesh.
#[derive(Clone, Copy, PartialEq, Eq, Debug)]
pub struct ChunkMeshStats {
    /// The lowest and highest block heights of the chunk.
    pub min_z: i32,
    pub max_z: i32,
    /// Faces and triangle indices of the chunk's mesh.
    pub face_count: usize,
    pub index_count: usize,
    pub filled_blocks: usize,
    pub liquid_blocks: usize,
    pub sprite_props: usize,
    /// Entities that the chunk's generation spawned.
    pub entity_spawns: usize,
}

/// The totals of a patch mesh.
#[derive(Clone, Copy, PartialEq, Eq, Debug)]
pub struct PatchTotals {
    pub min_z: i32,
    pub max_z: i32,
    pub generated_chunks: usize,
    pub terrain_faces: usize,
    pub filled_blocks: usize,
    pub liquid_blocks: usize,
    pub sprite_props: usize,
    pub entity_spawns: usize,
}

/// Why a patch mesh cannot be shown.
#[derive(Clone, Copy, PartialEq, Eq, Debug)]
pub enum PatchMeshError {
    /// No chunk of the patch was generated.
    NoChunks,
    /// The highest block is not above the lowest one.
    NoVerticalSpan,
    /// The chunks have no visible face at all.
    NoVisibleFaces,
}

/// The sum of a count over the chunks.
pub open spec fn sum_of(s: Seq<ChunkMeshStats>, f: spec_fn(ChunkMeshStats) -> nat) -> nat
    decreases s.len(),
{
    if s.len() == 0 {
        0
    } else {
        sum_of(s.drop_last(), f) + f(s.last())
    }
}

/// The lowest `min_z` of a non-empty sequence of chunks.
pub open spec fn lowest_z(s: Seq<ChunkMeshStats>) -> int
    decreases s.len(),
{
    if s.len() <= 1 {
        s[0].min_z as int
    } else if lowest_z(s.drop_last()) <= s.last().min_z {
        lowest_z(s.drop_last())
    } else {
        s.last().min_z as int
    }
}

/// The highest `max_z` of a non-empty sequence of chunks.
pub open spec fn highest_z(s: Seq<ChunkMeshStats>) -> int
    decreases s.len(),
{
    if s.len() <= 1 {
        s[0].max_z as int
    } else if highest_z(s.drop_last()) >= s.last().max_z {
        highest_z(s.drop_last())
    } else {
        s.last().max_z as int
    }
}

pub open spec fn faces(c: ChunkMeshStats) -> nat {
    c.face_count as nat
}

pub open spec fn indices(c: ChunkMeshStats) -> nat {
    c.index_count as nat
}

pub open spec fn filled(c: ChunkMeshStats) -> nat {
    c.filled_blocks as nat
}

pub open spec fn liquid(c: ChunkMeshStats) -> nat {
    c.liquid_blocks as nat
}

pub open spec fn props(c: ChunkMeshStats) -> nat {
    c.sprite_props as nat
}

pub open spec fn spawns(c: ChunkMeshStats) -> nat {
    c.entity_spawns as nat
}

/// Whether every count of the chunks adds up without overflow.
pub open spec fn totals_fit(s: Seq<ChunkMeshStats>) -> bool {
    &&& s.len() <= usize::MAX
    &&& sum_of(s, |c: ChunkMeshStats| faces(c)) <= usize::MAX
    &&& sum_of(s, |c: ChunkMeshStats| indices(c)) <= usize::MAX
    &&& sum_of(s, |c: ChunkMeshStats| filled(c)) <= usize::MAX
    &&& sum_of(s, |c: ChunkMeshStats| liquid(c)) <= usize::MAX
    &&& sum_of(s, |c: ChunkMeshStats| props(c)) <= usize::MAX
    &&& sum_of(s, |c: ChunkMeshStats| spawns(c)) <= usize::MAX
}

/// The patch from its chunks: an error when there are none, when the highest
/// block is not above the lowest, or when no chunk has a visible face (in that
/// order); otherwise the span and the totals.
pub open spec fn patch_totals_of(s: Seq<ChunkMeshStats>) -> Result<PatchTotals, PatchMeshError> {
    if s.len() == 0 {
        Err(PatchMeshError::NoChunks)
    } else if highest_z(s) <= lowest_z(s) {
        Err(PatchMeshError::NoVerticalSpan)
    } else if sum_of(s, |c: ChunkMeshStats| indices(c)) == 0 {
        Err(PatchMeshError::NoVisibleFaces)
    } else {
        Ok(
            PatchTotals {
                min_z: lowest_z(s) as i32,
                max_z: highest_z(s) as i32,
                generated_chunks: s.len() as usize,
                terrain_faces: sum_of(s, |c: ChunkMeshStats| faces(c)) as usize,
                filled_blocks: sum_of(s, |c: ChunkMeshStats| filled(c)) as usize,
                liquid_blocks: sum_of(s, |c: ChunkMeshStats| liquid(c)) as usize,
                sprite_props: sum_of(s, |c: ChunkMeshStats| props(c)) as usize,
                entity_spawns: sum_of(s, |c: ChunkMeshStats| spawns(c)) as usize,
            },
        )
    }
}

proof fn lemma_sum_prefix(s: Seq<ChunkMeshStats>, f: spec_fn(ChunkMeshStats) -> nat, k: int)
    requires
        0 <= k <= s.len(),
    ensures
        sum_of(s.take(k), f) <= sum_of(s, f),
    decreases s.len() - k,
{
    if k == s.len() {
        assert(s.take(k) =~= s);
    } else {
        lemma_sum_prefix(s, f, k + 1);
        assert(s.take(k + 1).drop_last() =~= s.take(k));
    }
}

/// The span and totals of a patch mesh, or why it cannot be shown.
pub fn patch_totals(chunks: &[ChunkMeshStats]) -> (r: Result<PatchTotals, PatchMeshError>)
    requires
        totals_fit(chunks@),
    ensures
        r == patch_totals_of(chunks@),
{
    if chunks.len() == 0 {
        return Err(PatchMeshError::NoChunks);
    }
    let ghost s = chunks@;
    let ghost f_faces = |c: ChunkMeshStats| faces(c);
    let ghost f_indices = |c: ChunkMeshStats| indices(c);
    let ghost f_filled = |c: ChunkMeshStats| filled(c);
    let ghost f_liquid = |c: ChunkMeshStats| liquid(c);
    let ghost f_props = |c: ChunkMeshStats| props(c);
    let ghost f_spawns = |c: ChunkMeshStats| spawns(c);
    let mut min_z = chunks[0].min_z;
    let mut max_z = chunks[0].max_z;
    let mut face_total: usize = 0;
    let mut index_total: usize = 0;
    let mut filled_total: usize = 0;
    let mut liquid_total: usize = 0;
    let mut props_total: usize = 0;
    let mut spawns_total: usize = 0;
    let mut i: usize = 0;
    assert(s.take(1).drop_last() =~= s.take(0));
    while i < chunks.len()
        invariant
            s == chunks@,
            s.len() > 0,
            i <= s.len(),
            totals_fit(s),
            f_faces == (|c: ChunkMeshStats| faces(c)),
            f_indices == (|c: ChunkMeshStats| indices(c)),
            f_filled == (|c: ChunkMeshStats| filled(c)),
            f_liquid == (|c: ChunkMeshStats| liquid(c)),
            f_props == (|c: ChunkMeshStats| props(c)),
            f_spawns == (|c: ChunkMeshStats| spawns(c)),
            i == 0 ==> min_z == s[0].min_z && max_z == s[0].max_z,
            i > 0 ==> min_z == lowest_z(s.take(i as int)) && max_z == highest_z(s.take(i as int)),
            face_total == sum_of(s.take(i as int), f_faces),
            index_total == sum_of(s.take(i as int), f_indices),
            filled_total == sum_of(s.take(i as int), f_filled),
            liquid_total == sum_of(s.take(i as int), f_liquid),
            props_total == sum_of(s.take(i as int), f_props),
            spawns_total == sum_of(s.take(i as int), f_spawns),
        decreases s.len() - i,
    {
        let c = chunks[i];
        proof {
            let next = s.take(i + 1);
            assert(next.drop_last() =~= s.take(i as int));
            assert(next.last() == c);
            lemma_sum_prefix(s, f_faces, i + 1);
            lemma_sum_prefix(s, f_indices, i + 1);
            lemma_sum_prefix(s, f_filled, i + 1);
            lemma_sum_prefix(s, f_liquid, i + 1);
            lemma_sum_prefix(s, f_props, i + 1);
            lemma_sum_prefix(s, f_spawns, i + 1);
            if i == 0 {
                assert(next.len() == 1);
            }
        }
        if i > 0 {
            if c.min_z < min_z {
                min_z = c.min_z;
            }
            if c.max_z > max_z {
                max_z = c.max_z;
            }
        }
        face_total = face_total + c.face_count;
        index_total = index_total + c.index_count;
        filled_total = filled_total + c.filled_blocks;
        liquid_total = liquid_total + c.liquid_blocks;
        props_total = props_total + c.sprite_props;
        spawns_total = spawns_total + c.entity_spawns;
        i = i + 1;
    }
    assert(s.take(s.len() as int) =~= s);
    if max_z <= min_z {
        return Err(PatchMeshError::NoVerticalSpan);
    }
    if index_total == 0 {
        return Err(PatchMeshError::NoVisibleFaces);
    }
    Ok(
        PatchTotals {
            min_z,
            max_z,
            generated_chunks: chunks.len(),
            terrain_faces: face_total,
            filled_blocks: filled_total,
            liquid_blocks: liquid_total,
            sprite_props: props_total,
            entity_spawns: spawns_total,
        },
    )
}

/// The required chunks that still have to be generated, in order: those not in the
/// cache, each once (a chunk generated earlier in the pass is cached by then).
pub open spec fn to_generate(required: Seq<(i32, i32)>, cached: Seq<(i32, i32)>) -> Seq<(i32, i32)>
    decreases required.len(),
{
    if required.len() == 0 {
        Seq::empty()
    } else {
        let rest = to_generate(required.drop_last(), cached);
        let p = required.last();
        if cached.contains(p) || rest.contains(p) {
            rest
        } else {
            rest.push(p)
        }
    }
}

fn contains_pos(v: &Vec<(i32, i32)>, p: (i32, i32)) -> (r: bool)
    ensures
        r == v@.contains(p),
{
    let mut i: usize = 0;
    while i < v.len()
        invariant
            i <= v.len(),
            forall|j: int| 0 <= j < i ==> v@[j] != p,
        decreases v.len() - i,
    {
        if v[i].0 == p.0 && v[i].1 == p.1 {
            return true;
        }
        i = i + 1;
    }
    false
}

fn slice_contains_pos(v: &[(i32, i32)], p: (i32, i32)) -> (r: bool)
    ensures
        r == v@.contains(p),
{
    let mut i: usize = 0;
    while i < v.len()
        invariant
            i <= v.len(),
            forall|j: int| 0 <= j < i ==> v@[j] != p,
        decreases v.len() - i,
    {
        if v[i].0 == p.0 && v[i].1 == p.1 {
            return true;
        }
        i = i + 1;
    }
    false
}

/// Which of the required chunks a mesh pass generates, given the chunks already
/// cached.
pub fn chunks_to_generate(required: &[(i32, i32)], cached: &[(i32, i32)]) -> (r: Vec<(i32, i32)>)
    ensures
        r@ == to_generate(required@, cached@),
{
    let mut out: Vec<(i32, i32)> = Vec::new();
    let mut i: usize = 0;
    while i < required.len()
        invariant
            i <= required.len(),
            out@ == to_generate(required@.take(i as int), cached@),
        decreases required.len() - i,
    {
        let p = required[i];
        assert(required@.take(i + 1).drop_last() =~= required@.take(i as int));
        assert(required@.take(i + 1).last() == p);
        if !slice_contains_pos(cached, p) && !contains_pos(&out, p) {
            out.push(p);
        }
        i = i + 1;
    }
    assert(required@.take(required.len() as int) =~= required@);
    out
}

/// A mesh pass generates no chunk twice and none that was cached, and generates
/// every required chunk that was not cached.
pub proof fn law_generation_fills_the_cache(required: Seq<(i32, i32)>, cached: Seq<(i32, i32)>)
    ensures
        to_generate(required, cached).no_duplicates(),
        forall|p: (i32, i32)| #[trigger] to_generate(required, cached).contains(p) ==> !cached.contains(p)
            && required.contains(p),
        forall|p: (i32, i32)|
            #[trigger] required.contains(p) ==> cached.contains(p) || to_generate(
                required,
                cached,
            ).contains(p),
    decreases required.len(),
{
    if required.len() > 0 {
        let prev = required.drop_last();
        let rest = to_generate(prev, cached);
        let q = required.last();
        law_generation_fills_the_cache(prev, cached);
        let out = to_generate(required, cached);
        assert forall|p: (i32, i32)| #[trigger] out.contains(p) implies !cached.contains(p)
            && required.contains(p) by {
            if rest.contains(p) {
                assert(prev.contains(p));
                let k = choose|k: int| 0 <= k < prev.len() && prev[k] == p;
                assert(required[k] == p);
            } else {
                assert(p == q);
                assert(required[required.len() - 1] == q);
            }
        }
        assert forall|p: (i32, i32)| #[trigger] required.contains(p) implies cached.contains(p)
            || out.contains(p) by {
            let k = choose|k: int| 0 <= k < required.len() && required[k] == p;
            if k < required.len() - 1 {
                assert(prev[k] == p);
                assert(prev.contains(p));
                if rest.contains(p) {
                    let m = choose|m: int| 0 <= m < rest.len() && rest[m] == p;
                    assert(out[m] == p);
                }
            } else {
                if !cached.contains(p) && !rest.contains(p) {
                    assert(out[out.len() - 1] == p);
                } else if rest.contains(p) {
                    let m = choose|m: int| 0 <= m < rest.len() && rest[m] == p;
                    assert(out[m] == p);
                }
            }
        }
    }
}

proof fn lemma_nothing_left_to_generate(required: Seq<(i32, i32)>, cached: Seq<(i32, i32)>)
    requires
        forall|p: (i32, i32)| #[trigger] required.contains(p) ==> cached.contains(p),
    ensures
        to_generate(required, cached).len() == 0,
    decreases required.len(),
{
    if required.len() > 0 {
        let prev = required.drop_last();
        assert forall|p: (i32, i32)| #[trigger] prev.contains(p) implies cached.contains(p) by {
            let k = choose|k: int| 0 <= k < prev.len() && prev[k] == p;
            assert(required[k] == p);
            assert(required.contains(p));
        }
        lemma_nothing_left_to_generate(prev, cached);
        assert(required.contains(required.last())) by {
            assert(required[required.len() - 1] == required.last());
        }
    }
}

/// A mesh pass completes the cache: with `cached` the chunks cached before a pass
/// over the `required` chunks, the chunks cached after it (`cached` followed by
/// those generated) are exactly the cached and the required ones; the pass
/// generates as many chunks as are required and not cached; a cache without
/// repeats stays without repeats and then holds as many chunks as the cached and
/// required ones together; and an immediate second pass over the same
/// chunks generates nothing.
pub proof fn law_generation_completes_the_cache(required: Seq<(i32, i32)>, cached: Seq<(i32, i32)>)
    ensures
        (cached + to_generate(required, cached)).to_set() == cached.to_set().union(
            required.to_set(),
        ),
        to_generate(required, cached).len() == required.to_set().difference(cached.to_set()).len(),
        cached.no_duplicates() ==> (cached + to_generate(required, cached)).no_duplicates(),
        cached.no_duplicates() ==> (cached + to_generate(required, cached)).len()
            == cached.to_set().union(required.to_set()).len(),
        to_generate(required, cached + to_generate(required, cached)).len() == 0,
{
    let g = to_generate(required, cached);
    let after = cached + g;
    law_generation_fills_the_cache(required, cached);
    assert forall|p: (i32, i32)| #[trigger] after.contains(p) <==> cached.contains(p) || g.contains(
        p,
    ) by {
        if after.contains(p) {
            let k = choose|k: int| 0 <= k < after.len() && after[k] == p;
            if k < cached.len() {
                assert(cached[k] == p);
            } else {
                assert(g[k - cached.len()] == p);
            }
        }
        if cached.contains(p) {
            let k = choose|k: int| 0 <= k < cached.len() && cached[k] == p;
            assert(after[k] == p);
        }
        if g.contains(p) {
            let k = choose|k: int| 0 <= k < g.len() && g[k] == p;
            assert(after[cached.len() + k] == p);
        }
    }
    assert(after.to_set() =~= cached.to_set().union(required.to_set()));
    assert(g.to_set() =~= required.to_set().difference(cached.to_set()));
    g.unique_seq_to_set();
    if cached.no_duplicates() {
        assert forall|i: int, j: int| 0 <= i < cached.len() && 0 <= j < g.len() implies cached[i]
            != g[j] by {
            assert(g.contains(g[j]));
            assert(cached.contains(cached[i]));
        }
        vstd::seq_lib::lemma_no_dup_in_concat(cached, g);
        after.unique_seq_to_set();
    }
    assert forall|p: (i32, i32)| #[trigger] required.contains(p) implies after.contains(p) by {
        assert(cached.contains(p) || g.contains(p));
    }
    lemma_nothing_left_to_generate(required, after);
}

} // verus!
