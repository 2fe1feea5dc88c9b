//! Ordering items by an integer key: a stable sort, the nearest-first selection
//! used for snapshots, and the first minimum within a radius.
//!
//! Distances and amounts are carried as the bit patterns of non-negative `f32`
//! values (`f32::to_bits`): for those, the order of the bit patterns is the order
//! that `f32::total_cmp` gives the values, so sorting by the key sorts by value.
use vstd::prelude::*;

verus! {

/// Whether key `a` may come before key `b` in the chosen direction.
pub open spec fn key_before(a: u32, b: u32, descending: bool) -> bool {
    if descending {
        a >= b
    } else {
        a <= b
    }
}

fn precedes(a: u32, b: u32, descending: bool) -> (r: bool)
    ensures
        r == key_before(a, b, descending),
{
    if descending {
        a >= b
    } else {
        a <= b
    }
}

/// `out` is `input` reordered by `perm` (each position of `out` names the position
/// of `input` it came from, each used once), sorted by key in the chosen
/// direction, with items of equal key kept in their input order.
pub open spec fn stable_sort_witness<T>(
    out: Seq<(u32, T)>,
    input: Seq<(u32, T)>,
    descending: bool,
    perm: Seq<int>,
) -> bool {
    &&& out.len() == input.len()
    &&& perm.len() == out.len()
    &&& forall|i: int|
        0 <= i < out.len() ==> 0 <= #[trigger] perm[i] < input.len() && out[i] == input[perm[i]]
    &&& forall|i: int, j: int| 0 <= i < j < out.len() ==> #[trigger] perm[i] != #[trigger] perm[j]
    &&& forall|i: int, j: int|
        0 <= i < j < out.len() ==> key_before(#[trigger] out[i].0, #[trigger] out[j].0, descending)
    &&& forall|i: int, j: int|
        0 <= i < j < out.len() && #[trigger] out[i].0 == #[trigger] out[j].0 ==> perm[i] < perm[j]
}

/// `out` is a stable sort of `input` by key.
pub open spec fn is_stable_sort<T>(out: Seq<(u32, T)>, input: Seq<(u32, T)>, descending: bool) -> bool {
    exists|perm: Seq<int>| stable_sort_witness(out, input, descending, perm)
}

/// Sorts by key, ascending or descending, keeping items of equal key in their
/// original order (as `sort_by` does).
pub fn stable_sort_by_key<T>(items: Vec<(u32, T)>, descending: bool) -> (out: Vec<(u32, T)>)
    ensures
        is_stable_sort(out@, items@, descending),
{
    let ghost input = items@;
    let mut rest = items;
    let mut out: Vec<(u32, T)> = Vec::new();
    let ghost mut perm: Seq<int> = Seq::empty();
    let ghost mut n: int = 0;
    while rest.len() > 0
        invariant
            0 <= n <= input.len(),
            rest@ == input.skip(n),
            stable_sort_witness(out@, input.take(n), descending, perm),
        decreases rest.len(),
    {
        let item = rest.remove(0);
        assert(item == input[n]);
        let mut pos: usize = 0;
        while pos < out.len() && precedes(out[pos].0, item.0, descending)
            invariant
                pos <= out.len(),
                forall|i: int| 0 <= i < pos ==> key_before(#[trigger] out@[i].0, item.0, descending),
            decreases out.len() - pos,
        {
            pos = pos + 1;
        }
        let ghost old_out = out@;
        let ghost old_perm = perm;
        out.insert(pos, item);
        proof {
            let np = old_perm.insert(pos as int, n);
            let prev = input.take(n);
            let next = input.take(n + 1);
            assert(next.len() == n + 1);
            assert forall|i: int| 0 <= i < prev.len() implies #[trigger] next[i] == prev[i] by {}
            assert(next[n] == item);
            // every item at or after `pos` must come strictly after `item`
            assert forall|j: int| pos <= j < old_out.len() implies !key_before(
                #[trigger] old_out[j].0,
                item.0,
                descending,
            ) by {
                if j > pos {
                    assert(key_before(old_out[pos as int].0, old_out[j].0, descending));
                }
            }
            assert forall|i: int| 0 <= i < out@.len() implies 0 <= #[trigger] np[i] < next.len()
                && out@[i] == next[np[i]] by {
                if i < pos {
                    assert(np[i] == old_perm[i]);
                } else if i > pos {
                    assert(np[i] == old_perm[i - 1]);
                }
            }
            assert forall|i: int, j: int| 0 <= i < j < out@.len() implies #[trigger] np[i]
                != #[trigger] np[j] by {
                if i < pos && j < pos {
                    assert(old_perm[i] != old_perm[j]);
                } else if i < pos && j > pos {
                    assert(old_perm[i] != old_perm[j - 1]);
                } else if i > pos && j > pos {
                    assert(old_perm[i - 1] != old_perm[j - 1]);
                } else if i == pos {
                    assert(0 <= old_perm[j - 1] < n);
                } else {
                    assert(0 <= old_perm[i] < n);
                }
            }
            assert forall|i: int, j: int| 0 <= i < j < out@.len() implies key_before(
                #[trigger] out@[i].0,
                #[trigger] out@[j].0,
                descending,
            ) by {
                if i < pos && j < pos {
                    assert(key_before(old_out[i].0, old_out[j].0, descending));
                } else if i < pos && j > pos {
                    assert(key_before(old_out[i].0, old_out[j - 1].0, descending));
                } else if i > pos && j > pos {
                    assert(key_before(old_out[i - 1].0, old_out[j - 1].0, descending));
                } else if i == pos {
                    assert(!key_before(old_out[j - 1].0, item.0, descending));
                } else {
                    assert(key_before(old_out[i].0, item.0, descending));
                }
            }
            assert forall|i: int, j: int|
                0 <= i < j < out@.len() && #[trigger] out@[i].0 == #[trigger] out@[j].0 implies np[i]
                < np[j] by {
                if i < pos && j < pos {
                    assert(old_perm[i] < old_perm[j]);
                } else if i < pos && j > pos {
                    assert(old_perm[i] < old_perm[j - 1]);
                } else if i > pos && j > pos {
                    assert(old_perm[i - 1] < old_perm[j - 1]);
                } else if i == pos {
                    assert(!key_before(old_out[j - 1].0, item.0, descending));
                } else {
                    assert(0 <= old_perm[i] < n);
                }
            }
            assert(rest@ =~= input.skip(n + 1));
            perm = np;
            n = n + 1;
        }
    }
    assert(input.take(n) =~= input);
    out
}

/// The items with key at most `max_key`, in their input order.
pub open spec fn keys_within<T>(items: Seq<(u32, T)>, max_key: u32) -> Seq<(u32, T)> {
    items.filter(|item: (u32, T)| item.0 <= max_key)
}

/// The at most `limit` items of key at most `max_key` that come first in a stable
/// ascending sort by key.
pub open spec fn nearest_selection<T>(
    out: Seq<(u32, T)>,
    items: Seq<(u32, T)>,
    max_key: u32,
    limit: nat,
) -> bool {
    exists|sorted: Seq<(u32, T)>|
        is_stable_sort(sorted, keys_within(items, max_key), false) && out == sorted.take(
            if sorted.len() < limit {
                sorted.len() as int
            } else {
                limit as int
            },
        )
}

/// Keeps the items of key at most `max_key`, sorts them nearest first (stably) and
/// keeps the first `limit`.
pub fn select_nearest<T>(items: Vec<(u32, T)>, max_key: u32, limit: usize) -> (out: Vec<(u32, T)>)
    ensures
        nearest_selection(out@, items@, max_key, limit as nat),
{
    let ghost input = items@;
    let mut rest = items;
    let mut kept: Vec<(u32, T)> = Vec::new();
    let ghost mut n: int = 0;
    while rest.len() > 0
        invariant
            0 <= n <= input.len(),
            rest@ == input.skip(n),
            kept@ == keys_within(input.take(n), max_key),
        decreases rest.len(),
    {
        let item = rest.remove(0);
        proof {
            assert(input.take(n + 1) =~= input.take(n).push(item));
            input.take(n).lemma_filter_push(item, |item: (u32, T)| item.0 <= max_key);
            assert(rest@ =~= input.skip(n + 1));
        }
        if item.0 <= max_key {
            kept.push(item);
        }
        proof {
            n = n + 1;
        }
    }
    assert(input.take(n) =~= input);
    let mut sorted = stable_sort_by_key(kept, false);
    let ghost full = sorted@;
    sorted.truncate(limit);
    assert(sorted@ =~= full.take(
        if full.len() < limit {
            full.len() as int
        } else {
            limit as int
        },
    ));
    sorted
}

/// The position of the first item with the smallest key among those of key at most
/// `max_key` (as `min_by` picks the first of equal minima); `None` when there is
/// none.
pub open spec fn first_nearest_of(keys: Seq<u32>, max_key: u32, r: Option<usize>) -> bool {
    match r {
        None => forall|i: int| 0 <= i < keys.len() ==> #[trigger] keys[i] > max_key,
        Some(k) => {
            &&& k < keys.len()
            &&& keys[k as int] <= max_key
            &&& forall|i: int| 0 <= i < keys.len() ==> #[trigger] keys[i] >= keys[k as int] || keys[i]
                > max_key
            &&& forall|i: int| 0 <= i < k ==> #[trigger] keys[i] > keys[k as int]
        },
    }
}

pub fn first_nearest(keys: &[u32], max_key: u32) -> (r: Option<usize>)
    ensures
        first_nearest_of(keys@, max_key, r),
{
    let mut best: Option<usize> = None;
    let mut i: usize = 0;
    while i < keys.len()
        invariant
            i <= keys.len(),
            first_nearest_of(keys@.take(i as int), max_key, best),
        decreases keys.len() - i,
    {
        let k = keys[i];
        let ghost old_best = best;
        let ghost prefix = keys@.take(i as int);
        let ghost next = keys@.take(i + 1);
        assert forall|j: int| 0 <= j < i implies #[trigger] next[j] == prefix[j] by {}
        if k <= max_key {
            match best {
                None => {
                    best = Some(i);
                },
                Some(b) => {
                    if k < keys[b] {
                        best = Some(i);
                    }
                },
            }
        }
        assert(next[i as int] == k);
        proof {
            match best {
                None => {},
                Some(b) => {
                    assert(next[b as int] == keys@[b as int]);
                    if b < i {
                        assert(prefix[b as int] == next[b as int]);
                    }
                },
            }
        }
        i = i + 1;
    }
    assert(keys@.take(keys.len() as int) =~= keys@);
    best
}

/// A stable sort keeps exactly the given items: it has the same length, and every
/// item comes from the input, in key order.
pub proof fn law_stable_sort_is_sorted_permutation<T>(
    out: Seq<(u32, T)>,
    input: Seq<(u32, T)>,
    descending: bool,
)
    requires
        is_stable_sort(out, input, descending),
    ensures
        out.len() == input.len(),
        forall|i: int| 0 <= i < out.len() ==> input.contains(#[trigger] out[i]),
        forall|i: int, j: int|
            0 <= i < j < out.len() ==> key_before(#[trigger] out[i].0, #[trigger] out[j].0, descending),
{
    let perm = choose|perm: Seq<int>| stable_sort_witness(out, input, descending, perm);
    assert forall|i: int| 0 <= i < out.len() implies input.contains(#[trigger] out[i]) by {
        assert(out[i] == input[perm[i]]);
    }
}

/// An injective sequence of `n` positions below `n` names every position.
proof fn lemma_perm_names_every_position(perm: Seq<int>, n: int)
    requires
        perm.len() == n,
        forall|i: int| 0 <= i < n ==> 0 <= #[trigger] perm[i] < n,
        forall|i: int, j: int| 0 <= i < j < n ==> #[trigger] perm[i] != #[trigger] perm[j],
    ensures
        forall|k: int| 0 <= k < n ==> #[trigger] perm.contains(k),
{
    broadcast use vstd::seq_lib::seq_to_set_is_finite;

    assert(perm.no_duplicates()) by {
        assert forall|i: int, j: int| 0 <= i < perm.len() && 0 <= j < perm.len() && i != j implies perm[i]
            != perm[j] by {
            if i < j {
                assert(perm[i] != perm[j]);
            } else {
                assert(perm[j] != perm[i]);
            }
        }
    }
    perm.unique_seq_to_set();
    vstd::set_lib::lemma_int_range(0, n);
    let range = vstd::set_lib::set_int_range(0, n);
    assert(perm.to_set().subset_of(range)) by {
        assert forall|k: int| perm.to_set().contains(k) implies range.contains(k) by {
            let i = choose|i: int| 0 <= i < perm.len() && perm[i] == k;
            assert(0 <= perm[i] < n);
        }
    }
    vstd::set_lib::lemma_subset_equality(perm.to_set(), range);
    assert forall|k: int| 0 <= k < n implies #[trigger] perm.contains(k) by {
        assert(range.contains(k));
        assert(perm.to_set().contains(k));
    }
}

/// Two witnesses of a stable sort of the same input agree on their first `k`
/// positions.
proof fn lemma_stable_sort_witnesses_agree<T>(
    out1: Seq<(u32, T)>,
    out2: Seq<(u32, T)>,
    input: Seq<(u32, T)>,
    descending: bool,
    p1: Seq<int>,
    p2: Seq<int>,
    k: int,
)
    requires
        stable_sort_witness(out1, input, descending, p1),
        stable_sort_witness(out2, input, descending, p2),
        0 <= k <= input.len(),
    ensures
        forall|i: int| 0 <= i < k ==> #[trigger] p1[i] == p2[i],
    decreases k,
{
    if k > 0 {
        lemma_stable_sort_witnesses_agree(out1, out2, input, descending, p1, p2, k - 1);
        let i = k - 1;
        let a = p1[i];
        let b = p2[i];
        if a != b {
            let n = input.len() as int;
            lemma_perm_names_every_position(p1, n);
            lemma_perm_names_every_position(p2, n);
            assert(p2.contains(a));
            assert(p1.contains(b));
            let j = choose|j: int| 0 <= j < p2.len() && p2[j] == a;
            let jj = choose|j: int| 0 <= j < p1.len() && p1[j] == b;
            if j < i {
                assert(p1[j] == p2[j]);
                assert(p1[j] != p1[i]);
            }
            if jj < i {
                assert(p1[jj] == p2[jj]);
                assert(p2[jj] != p2[i]);
            }
            assert(i < j && i < jj);
            assert(out1[i] == input[a] && out1[jj] == input[b]);
            assert(out2[i] == input[b] && out2[j] == input[a]);
            assert(key_before(out1[i].0, out1[jj].0, descending));
            assert(key_before(out2[i].0, out2[j].0, descending));
            if input[a].0 == input[b].0 {
                assert(p1[i] < p1[jj]);
                assert(p2[i] < p2[j]);
            }
        }
    }
}

/// A stable sort is determined by its input: two stable sorts of the same items
/// in the same direction are equal.
pub proof fn law_stable_sort_is_unique<T>(
    out1: Seq<(u32, T)>,
    out2: Seq<(u32, T)>,
    input: Seq<(u32, T)>,
    descending: bool,
)
    requires
        is_stable_sort(out1, input, descending),
        is_stable_sort(out2, input, descending),
    ensures
        out1 == out2,
{
    let p1 = choose|perm: Seq<int>| stable_sort_witness(out1, input, descending, perm);
    let p2 = choose|perm: Seq<int>| stable_sort_witness(out2, input, descending, perm);
    lemma_stable_sort_witnesses_agree(out1, out2, input, descending, p1, p2, input.len() as int);
    assert forall|i: int| 0 <= i < out1.len() implies out1[i] == out2[i] by {
        assert(p1[i] == p2[i]);
    }
    assert(out1 =~= out2);
}

/// A nearest-first selection holds at most `limit` items, nearest first, all
/// within `max_key`, each taken from the given items.
pub proof fn law_nearest_selection<T>(
    out: Seq<(u32, T)>,
    items: Seq<(u32, T)>,
    max_key: u32,
    limit: nat,
)
    requires
        nearest_selection(out, items, max_key, limit),
    ensures
        out.len() <= limit,
        forall|i: int, j: int| 0 <= i < j < out.len() ==> #[trigger] out[i].0 <= #[trigger] out[j].0,
        forall|i: int| 0 <= i < out.len() ==> (#[trigger] out[i]).0 <= max_key && items.contains(out[i]),
{
    let sorted = choose|sorted: Seq<(u32, T)>|
        is_stable_sort(sorted, keys_within(items, max_key), false) && out == sorted.take(
            if sorted.len() < limit {
                sorted.len() as int
            } else {
                limit as int
            },
        );
    let pred = |item: (u32, T)| item.0 <= max_key;
    let kept = keys_within(items, max_key);
    law_stable_sort_is_sorted_permutation(sorted, kept, false);
    assert forall|i: int, j: int| 0 <= i < j < out.len() implies #[trigger] out[i].0
        <= #[trigger] out[j].0 by {
        assert(key_before(sorted[i].0, sorted[j].0, false));
    }
    assert forall|i: int| 0 <= i < out.len() implies (#[trigger] out[i]).0 <= max_key
        && items.contains(out[i]) by {
        assert(out[i] == sorted[i]);
        assert(kept.contains(sorted[i]));
        let k = choose|k: int| 0 <= k < kept.len() && kept[k] == sorted[i];
        items.lemma_filter_pred(pred, k);
        items.lemma_filter_contains_rev(pred, sorted[i]);
    }
}

/// The nearest-first selection is determined by the items: two selections from
/// the same items with the same bound and limit are equal.
pub proof fn law_nearest_selection_is_unique<T>(
    out1: Seq<(u32, T)>,
    out2: Seq<(u32, T)>,
    items: Seq<(u32, T)>,
    max_key: u32,
    limit: nat,
)
    requires
        nearest_selection(out1, items, max_key, limit),
        nearest_selection(out2, items, max_key, limit),
    ensures
        out1 == out2,
{
    let kept = keys_within(items, max_key);
    let s1 = choose|sorted: Seq<(u32, T)>|
        is_stable_sort(sorted, kept, false) && out1 == sorted.take(
            if sorted.len() < limit {
                sorted.len() as int
            } else {
                limit as int
            },
        );
    let s2 = choose|sorted: Seq<(u32, T)>|
        is_stable_sort(sorted, kept, false) && out2 == sorted.take(
            if sorted.len() < limit {
                sorted.len() as int
            } else {
                limit as int
            },
        );
    law_stable_sort_is_unique(s1, s2, kept, false);
}

} // verus!
