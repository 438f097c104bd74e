//! What holds of the tree numbering and of the rewriting of crossing lists.

use vstd::prelude::*;
use crate::csg::{filtered, inside_after, node_side, outcome, side_of, CSGType, Verdict};
use crate::hit::{ordered_by_depth, Hit};

verus! {

/// The two children of a node lie on its two branches. (Node 0 is its own
/// left child, so it has only a right branch.)
pub proof fn node_side_of_children(parent: nat)
    ensures
        node_side(parent, 2 * parent + 1) == Some(false),
        parent >= 1 ==> node_side(parent, 2 * parent) == Some(true),
{
}

/// A node at or above `parent` in the numbering is on neither branch.
pub proof fn node_side_not_below(parent: nat, child: nat)
    requires
        child <= parent,
    ensures
        node_side(parent, child) is None,
{
}

/// Whatever lies on a branch of `parent`, both of its children lie on the
/// same branch.
pub proof fn node_side_descends(parent: nat, child: nat)
    requires
        node_side(parent, child) is Some,
    ensures
        node_side(parent, 2 * child) == node_side(parent, child),
        node_side(parent, 2 * child + 1) == node_side(parent, child),
{
    assert((2 * child) / 2 == child);
    assert((2 * child + 1) / 2 == child);
}

/// A node other than `parent` that is not below `parent` has no child below
/// `parent` either.
pub proof fn node_side_stays_outside(parent: nat, child: nat)
    requires
        child != parent,
        node_side(parent, child) is None,
    ensures
        node_side(parent, 2 * child) is None,
        node_side(parent, 2 * child + 1) is None,
{
    assert((2 * child) / 2 == child);
    assert((2 * child + 1) / 2 == child);
}

/// Whether a point is inside the composite, given on which sides it is.
pub open spec fn composite_inside(csg_type: CSGType, left: bool, right: bool) -> bool {
    match csg_type {
        CSGType::Union => left || right,
        CSGType::Intersection => left && right,
        CSGType::Subtract => left && !right,
    }
}

/// Direction of the last crossing of the composite in a list, if it has one.
pub open spec fn last_direction(csg_index: usize, index: usize, hits: Seq<Hit>) -> Option<bool>
    decreases hits.len(),
{
    if hits.len() == 0 {
        None
    } else if side_of(csg_index, index, hits.last()) is Some {
        Some(hits.last().correct_dir)
    } else {
        last_direction(csg_index, index, hits.drop_last())
    }
}

/// The emitted crossings trace the boundary of the composed solid: after any
/// number of crossings, if the composite has emitted a crossing at all, the
/// last one emitted is an entry exactly when the ray is then inside the
/// union, the intersection or the difference of the two sides.
pub proof fn filter_tracks_composite(
    csg_type: CSGType,
    csg_index: usize,
    index: usize,
    hits: Seq<Hit>,
    n: nat,
)
    requires
        n <= hits.len(),
    ensures
        last_direction(csg_index, index, filtered(csg_type, csg_index, index, hits, n)) matches Some(
            d,
        ) ==> d == composite_inside(
            csg_type,
            inside_after(csg_index, index, hits, true, n),
            inside_after(csg_index, index, hits, false, n),
        ),
    decreases n,
{
    if n > 0 {
        let m = (n - 1) as nat;
        filter_tracks_composite(csg_type, csg_index, index, hits, m);
        let before = filtered(csg_type, csg_index, index, hits, m);
        let h = hits[n - 1];
        assert(before.push(h).drop_last() == before);
        assert(before.push(h.flipped()).drop_last() == before);
        assert(before.push(h).last() == h);
        assert(before.push(h.flipped()).last() == h.flipped());
    }
}

/// A union keeps every entry and an intersection keeps every exit.
pub proof fn filter_keeps_one_direction(
    csg_type: CSGType,
    csg_index: usize,
    index: usize,
    hits: Seq<Hit>,
    i: int,
)
    requires
        0 <= i < hits.len(),
        side_of(csg_index, index, hits[i]) is Some,
    ensures
        csg_type == CSGType::Union && hits[i].correct_dir ==> outcome(
            csg_type,
            csg_index,
            index,
            hits,
            i,
        ) == Verdict::Keep,
        csg_type == CSGType::Intersection && !hits[i].correct_dir ==> outcome(
            csg_type,
            csg_index,
            index,
            hits,
            i,
        ) == Verdict::Keep,
        csg_type != CSGType::Subtract ==> outcome(csg_type, csg_index, index, hits, i)
            != Verdict::Flip,
{
    let after = (i + 1) as nat;
    assert(hits[after - 1] == hits[i]);
    if side_of(csg_index, index, hits[i]) == Some(true) {
        assert(inside_after(csg_index, index, hits, true, after) == hits[i].correct_dir);
    } else {
        assert(side_of(csg_index, index, hits[i]) == Some(false));
        assert(inside_after(csg_index, index, hits, false, after) == hits[i].correct_dir);
    }
}

/// In a difference, the surface of the carved-out side is never emitted as
/// it is: a crossing of it is emitted reversed where the ray is inside the
/// left side and does cross into or out of the right side, and is removed
/// everywhere else. A crossing of the left side is never reversed.
pub proof fn subtract_reverses_carved_surface(
    csg_index: usize,
    index: usize,
    hits: Seq<Hit>,
    i: int,
)
    requires
        0 <= i < hits.len(),
        side_of(csg_index, index, hits[i]) is Some,
    ensures
        side_of(csg_index, index, hits[i]) == Some(false) ==> (outcome(
            CSGType::Subtract,
            csg_index,
            index,
            hits,
            i,
        ) == if inside_after(csg_index, index, hits, true, i as nat) && inside_after(
            csg_index,
            index,
            hits,
            false,
            i as nat,
        ) != hits[i].correct_dir {
            Verdict::Flip
        } else {
            Verdict::Drop
        }),
        side_of(csg_index, index, hits[i]) == Some(true) ==> outcome(
            CSGType::Subtract,
            csg_index,
            index,
            hits,
            i,
        ) != Verdict::Flip,
{
}

/// In a difference, no crossing is emitted as an entry while the ray is
/// inside the carved-out side.
pub proof fn subtract_never_enters_carved(csg_index: usize, index: usize, hits: Seq<Hit>, i: int)
    requires
        0 <= i < hits.len(),
        side_of(csg_index, index, hits[i]) is Some,
        inside_after(csg_index, index, hits, false, (i + 1) as nat),
    ensures
        match outcome(CSGType::Subtract, csg_index, index, hits, i) {
            Verdict::Keep => !hits[i].correct_dir,
            Verdict::Flip => !hits[i].flipped().correct_dir,
            Verdict::Drop => true,
        },
{
}

/// Every emitted crossing comes from one of the crossings read so far, as
/// it is or reversed.
pub proof fn filtered_comes_from_hits(
    csg_type: CSGType,
    csg_index: usize,
    index: usize,
    hits: Seq<Hit>,
    n: nat,
    k: int,
)
    requires
        n <= hits.len(),
        0 <= k < filtered(csg_type, csg_index, index, hits, n).len(),
    ensures
        exists|j: int|
            0 <= j < n && (filtered(csg_type, csg_index, index, hits, n)[k] == #[trigger] hits[j]
                || filtered(csg_type, csg_index, index, hits, n)[k] == hits[j].flipped()),
    decreases n,
{
    let m = (n - 1) as nat;
    let before = filtered(csg_type, csg_index, index, hits, m);
    if k < before.len() {
        filtered_comes_from_hits(csg_type, csg_index, index, hits, m, k);
        let j = choose|j: int|
            0 <= j < m && (before[k] == #[trigger] hits[j] || before[k] == hits[j].flipped());
        assert(0 <= j < n);
    } else {
        assert(0 <= n - 1 < n);
        assert(filtered(csg_type, csg_index, index, hits, n)[k] == hits[n - 1] || filtered(
            csg_type,
            csg_index,
            index,
            hits,
            n,
        )[k] == hits[n - 1].flipped());
    }
}

/// Rewriting keeps the order: if the crossings come ordered by depth, so do
/// the emitted ones, and none of them lies deeper than the last crossing
/// read.
pub proof fn filter_keeps_order(
    csg_type: CSGType,
    csg_index: usize,
    index: usize,
    hits: Seq<Hit>,
    n: nat,
)
    requires
        n <= hits.len(),
        ordered_by_depth(hits),
    ensures
        ordered_by_depth(filtered(csg_type, csg_index, index, hits, n)),
        forall|k: int|
            0 <= k < filtered(csg_type, csg_index, index, hits, n).len() ==> n > 0 && (
            #[trigger] filtered(csg_type, csg_index, index, hits, n)[k]).depth <= hits[n
                - 1].depth,
    decreases n,
{
    if n > 0 {
        filter_keeps_order(csg_type, csg_index, index, hits, (n - 1) as nat);
    }
}

/// A list in which no crossing belongs to the composite passes unchanged.
pub proof fn filter_passes_strangers(
    csg_type: CSGType,
    csg_index: usize,
    index: usize,
    hits: Seq<Hit>,
    n: nat,
)
    requires
        n <= hits.len(),
        forall|i: int| 0 <= i < n ==> side_of(csg_index, index, #[trigger] hits[i]) is None,
    ensures
        filtered(csg_type, csg_index, index, hits, n) == hits.take(n as int),
    decreases n,
{
    if n > 0 {
        filter_passes_strangers(csg_type, csg_index, index, hits, (n - 1) as nat);
        assert(hits.take(n as int) == hits.take(n - 1).push(hits[n - 1]));
    }
}

} // verus!
