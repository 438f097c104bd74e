//! Ordering the crossings of a ray by depth.

use vstd::prelude::*;
use crate::hit::{ordered_by_depth, Hit};

verus! {

/// An ordered list with one more crossing: the new one goes behind every
/// crossing that is not deeper than it.
pub open spec fn with_hit(hits: Seq<Hit>, hit: Hit) -> Seq<Hit>
    decreases hits.len(),
{
    if hits.len() == 0 {
        seq![hit]
    } else if hits.last().depth <= hit.depth {
        hits.push(hit)
    } else {
        with_hit(hits.drop_last(), hit).push(hits.last())
    }
}

/// The crossings ordered by depth; crossings of equal depth keep the order
/// in which they came.
pub open spec fn by_depth(hits: Seq<Hit>) -> Seq<Hit>
    decreases hits.len(),
{
    if hits.len() == 0 {
        hits
    } else {
        with_hit(by_depth(hits.drop_last()), hits.last())
    }
}

/// Putting the new crossing at position `at` is right if everything before
/// `at` is not deeper and everything from `at` on is deeper.
proof fn with_hit_is_insert(hits: Seq<Hit>, hit: Hit, at: int)
    requires
        0 <= at <= hits.len(),
        at > 0 ==> hits[at - 1].depth <= hit.depth,
        forall|k: int| at <= k < hits.len() ==> hits[k].depth > hit.depth,
    ensures
        with_hit(hits, hit) == hits.insert(at, hit),
    decreases hits.len(),
{
    if hits.len() == 0 {
        assert(hits.insert(at, hit) == seq![hit]);
    } else if at == hits.len() {
        assert(hits.insert(at, hit) == hits.push(hit));
    } else {
        with_hit_is_insert(hits.drop_last(), hit, at);
        assert(hits.insert(at, hit) == hits.drop_last().insert(at, hit).push(hits.last()));
    }
}

/// Orders the crossings by depth, nearest first and those behind the ray
/// origin before it, keeping the order of crossings of equal depth.
pub fn sort_hits(hits: Vec<Hit>) -> (out: Vec<Hit>)
    ensures
        out@ == by_depth(hits@),
{
    let mut out: Vec<Hit> = Vec::new();
    let mut i: usize = 0;
    while i < hits.len()
        invariant
            i <= hits.len(),
            out@ == by_depth(hits@.take(i as int)),
            out@.len() == i,
        decreases hits.len() - i,
    {
        let hit: Hit = hits[i];
        let mut at: usize = out.len();
        while at > 0 && out[at - 1].depth > hit.depth
            invariant
                at <= out.len(),
                forall|k: int| at <= k < out@.len() ==> out@[k].depth > hit.depth,
            decreases at,
        {
            at -= 1;
        }
        proof {
            with_hit_is_insert(out@, hit, at as int);
            assert(hits@.take(i + 1).drop_last() == hits@.take(i as int));
        }
        out.insert(at, hit);
        i += 1;
    }
    proof {
        assert(hits@.take(hits@.len() as int) == hits@);
    }
    out
}

/// Adding a crossing to an ordered list gives an ordered list that holds
/// the same crossings and the new one.
pub proof fn with_hit_keeps_order(hits: Seq<Hit>, hit: Hit)
    requires
        ordered_by_depth(hits),
    ensures
        ordered_by_depth(with_hit(hits, hit)),
        with_hit(hits, hit).len() == hits.len() + 1,
        with_hit(hits, hit).to_multiset() == hits.to_multiset().insert(hit),
        forall|k: int|
            0 <= k < with_hit(hits, hit).len() ==> #[trigger] with_hit(hits, hit)[k] == hit || (
            exists|j: int| 0 <= j < hits.len() && hits[j] == with_hit(hits, hit)[k]),
    decreases hits.len(),
{
    broadcast use vstd::seq_lib::group_to_multiset_ensures;

    if hits.len() == 0 {
        assert(hits.to_multiset() =~= vstd::multiset::Multiset::<Hit>::empty());
        assert(seq![hit] == Seq::<Hit>::empty().push(hit));
    } else if hits.last().depth <= hit.depth {
    } else {
        let front = hits.drop_last();
        with_hit_keeps_order(front, hit);
        let grown = with_hit(front, hit);
        assert(hits == front.push(hits.last()));
        assert forall|i: int, j: int| 0 <= i <= j < grown.push(hits.last()).len() implies grown.push(
            hits.last(),
        )[i].depth <= grown.push(hits.last())[j].depth by {
            if j == grown.len() {
                if i < grown.len() {
                    if grown[i] != hit {
                        let w = choose|w: int| 0 <= w < front.len() && front[w] == grown[i];
                        assert(hits[w].depth <= hits[hits.len() - 1].depth);
                    }
                }
            }
        }
        assert(grown.push(hits.last()).to_multiset() == hits.to_multiset().insert(hit)) by {
            assert(front.to_multiset().insert(hit).insert(hits.last()) =~= front.to_multiset().insert(
                hits.last(),
            ).insert(hit));
        }
        assert forall|k: int| 0 <= k < with_hit(hits, hit).len() implies #[trigger] with_hit(
            hits,
            hit,
        )[k] == hit || (exists|j: int| 0 <= j < hits.len() && hits[j] == with_hit(hits, hit)[k]) by {
            if k < grown.len() {
                if grown[k] != hit {
                    let w = choose|w: int| 0 <= w < front.len() && front[w] == grown[k];
                    assert(hits[w] == grown[k]);
                }
            } else {
                assert(hits[hits.len() - 1] == with_hit(hits, hit)[k]);
            }
        }
    }
}

/// The ordered list is ordered by depth and holds exactly the crossings that
/// were given, each as often as it was given.
pub proof fn by_depth_is_ordered(hits: Seq<Hit>)
    ensures
        ordered_by_depth(by_depth(hits)),
        by_depth(hits).len() == hits.len(),
        by_depth(hits).to_multiset() == hits.to_multiset(),
    decreases hits.len(),
{
    broadcast use vstd::seq_lib::group_to_multiset_ensures;

    if hits.len() > 0 {
        by_depth_is_ordered(hits.drop_last());
        with_hit_keeps_order(by_depth(hits.drop_last()), hits.last());
        assert(hits == hits.drop_last().push(hits.last()));
    }
}

/// The crossings of a list that lie at a given depth, in their order.
pub open spec fn at_depth(hits: Seq<Hit>, depth: i64) -> Seq<Hit>
    decreases hits.len(),
{
    if hits.len() == 0 {
        hits
    } else {
        let front = at_depth(hits.drop_last(), depth);
        if hits.last().depth == depth {
            front.push(hits.last())
        } else {
            front
        }
    }
}

/// A crossing that is added to an ordered list comes behind the crossings
/// of its own depth, and leaves the crossings of every other depth as they
/// were.
pub proof fn with_hit_goes_behind_its_equals(hits: Seq<Hit>, hit: Hit, depth: i64)
    ensures
        at_depth(with_hit(hits, hit), depth) == if hit.depth == depth {
            at_depth(hits, depth).push(hit)
        } else {
            at_depth(hits, depth)
        },
    decreases hits.len(),
{
    if hits.len() == 0 {
        assert(seq![hit].drop_last() == hits);
    } else if hits.last().depth <= hit.depth {
        assert(hits.push(hit).drop_last() == hits);
    } else {
        let front = hits.drop_last();
        with_hit_goes_behind_its_equals(front, hit, depth);
        assert(with_hit(front, hit).push(hits.last()).drop_last() == with_hit(front, hit));
    }
}

/// Ordering is stable: at every depth, the ordered list holds the crossings
/// of that depth in the order in which they were given.
pub proof fn by_depth_is_stable(hits: Seq<Hit>, depth: i64)
    ensures
        at_depth(by_depth(hits), depth) == at_depth(hits, depth),
    decreases hits.len(),
{
    if hits.len() > 0 {
        by_depth_is_stable(hits.drop_last(), depth);
        with_hit_goes_behind_its_equals(by_depth(hits.drop_last()), hits.last(), depth);
    }
}

/// Every crossing of the ordered list is one of those that were given.
pub proof fn by_depth_holds_given_hits(hits: Seq<Hit>, k: int)
    requires
        0 <= k < by_depth(hits).len(),
    ensures
        exists|j: int| 0 <= j < hits.len() && #[trigger] hits[j] == by_depth(hits)[k],
{
    broadcast use vstd::seq_lib::group_to_multiset_ensures;

    by_depth_is_ordered(hits);
    let x = by_depth(hits)[k];
    assert(by_depth(hits).contains(x));
    assert(hits.to_multiset().count(x) > 0);
    assert(hits.contains(x));
    let j = choose|j: int| 0 <= j < hits.len() && hits[j] == x;
    assert(hits[j] == by_depth(hits)[k]);
}

/// A list that is ordered already stays as it is.
pub proof fn by_depth_keeps_ordered_list(hits: Seq<Hit>)
    requires
        ordered_by_depth(hits),
    ensures
        by_depth(hits) == hits,
    decreases hits.len(),
{
    if hits.len() > 0 {
        let front = hits.drop_last();
        assert(ordered_by_depth(front));
        by_depth_keeps_ordered_list(front);
        if front.len() > 0 {
            assert(front.last() == hits[hits.len() - 2]);
        }
        assert(front.push(hits.last()) == hits);
    }
}

} // verus!
