//! Boolean composition of solids by rewriting ordered crossing lists.

use vstd::prelude::*;
use crate::hit::Hit;

verus! {

/// How a composite solid combines its two children.
#[derive(Clone, Copy, Debug, PartialEq, Eq, Structural)]
pub enum CSGType {
    Union,
    Intersection,
    Subtract,
}

/// The branch of `parent` under which `child` lies in the numbering of a
/// binary tree where the children of node `n` are `2n` (left) and `2n + 1`
/// (right): `Some(true)` for the left branch, `Some(false)` for the right
/// one, `None` if `child` is not below `parent`.
pub open spec fn node_side(parent: nat, child: nat) -> Option<bool>
    decreases child,
{
    if child <= parent {
        None
    } else if child == 2 * parent {
        Some(true)
    } else if child == 2 * parent + 1 {
        Some(false)
    } else {
        node_side(parent, child / 2)
    }
}

/// Finds the branch of `parent` under which `child` lies, by halving `child`
/// until it is a child of `parent` or no longer above it.
pub fn is_node_left(parent: usize, child: usize) -> (r: Option<bool>)
    ensures
        r == node_side(parent as nat, child as nat),
{
    let mut current: usize = child;
    while current > parent
        invariant
            node_side(parent as nat, current as nat) == node_side(parent as nat, child as nat),
        decreases current,
    {
        let half: usize = current / 2;
        if half == parent {
            return Some(current % 2 == 0);
        }
        current = half;
    }
    None
}

/// The side of the composite solid `csg_index` of object `index` that a
/// crossing belongs to, or `None` if it belongs to another object or to no
/// leaf below that node.
pub open spec fn side_of(csg_index: usize, index: usize, h: Hit) -> Option<bool> {
    if h.obj_index == index {
        node_side(csg_index as nat, h.csg_index as nat)
    } else {
        None
    }
}

/// Whether the ray is inside the given side before the crossing at `from`,
/// judged by the crossings from `from` on: it is if the first crossing of
/// that side is an exit.
pub open spec fn starts_inside_from(
    csg_index: usize,
    index: usize,
    hits: Seq<Hit>,
    left: bool,
    from: int,
) -> bool
    decreases hits.len() - from,
{
    if from < 0 || from >= hits.len() {
        false
    } else if side_of(csg_index, index, hits[from]) == Some(left) {
        !hits[from].correct_dir
    } else {
        starts_inside_from(csg_index, index, hits, left, from + 1)
    }
}

/// Whether the ray starts inside the given side of the composite.
pub open spec fn starts_inside(csg_index: usize, index: usize, hits: Seq<Hit>, left: bool) -> bool {
    starts_inside_from(csg_index, index, hits, left, 0)
}

/// Whether the ray is inside the given side after the first `n` crossings:
/// the direction of the last of them on that side, or the starting state if
/// there is none.
pub open spec fn inside_after(
    csg_index: usize,
    index: usize,
    hits: Seq<Hit>,
    left: bool,
    n: nat,
) -> bool
    decreases n,
{
    if n == 0 {
        starts_inside(csg_index, index, hits, left)
    } else if side_of(csg_index, index, hits[n - 1]) == Some(left) {
        hits[n - 1].correct_dir
    } else {
        inside_after(csg_index, index, hits, left, (n - 1) as nat)
    }
}

/// What becomes of a crossing when a composite rewrites the list.
#[derive(Clone, Copy, Debug, PartialEq, Eq, Structural)]
pub enum Verdict {
    /// The crossing stays as it is.
    Keep,
    /// The crossing stays, reversed.
    Flip,
    /// The crossing is removed.
    Drop,
}

/// The case table of the three compositions, for a crossing of the composite
/// with direction `entering`, given the state of both sides before
/// (`left_before`, `right_before`) and after it (`left`, `right`).
pub open spec fn verdict(
    csg_type: CSGType,
    entering: bool,
    left_before: bool,
    right_before: bool,
    left: bool,
    right: bool,
) -> Verdict {
    match csg_type {
        CSGType::Union => if (entering && (left || right)) || (!entering && !left && !right) {
            Verdict::Keep
        } else {
            Verdict::Drop
        },
        CSGType::Intersection => if (entering && left && right) || (!entering && (!left || !right)) {
            Verdict::Keep
        } else {
            Verdict::Drop
        },
        CSGType::Subtract => if !right && !right_before && left != left_before {
            Verdict::Keep
        } else if left && left_before && right != right_before {
            Verdict::Flip
        } else {
            Verdict::Drop
        },
    }
}

/// What becomes of the crossing at position `i` of the list.
pub open spec fn outcome(
    csg_type: CSGType,
    csg_index: usize,
    index: usize,
    hits: Seq<Hit>,
    i: int,
) -> Verdict {
    if side_of(csg_index, index, hits[i]) is None {
        Verdict::Keep
    } else {
        verdict(
            csg_type,
            hits[i].correct_dir,
            inside_after(csg_index, index, hits, true, i as nat),
            inside_after(csg_index, index, hits, false, i as nat),
            inside_after(csg_index, index, hits, true, (i + 1) as nat),
            inside_after(csg_index, index, hits, false, (i + 1) as nat),
        )
    }
}

/// The list that the composite emits for the first `n` crossings of `hits`.
pub open spec fn filtered(
    csg_type: CSGType,
    csg_index: usize,
    index: usize,
    hits: Seq<Hit>,
    n: nat,
) -> Seq<Hit>
    decreases n,
{
    if n == 0 {
        Seq::empty()
    } else {
        let before = filtered(csg_type, csg_index, index, hits, (n - 1) as nat);
        match outcome(csg_type, csg_index, index, hits, n - 1) {
            Verdict::Keep => before.push(hits[n - 1]),
            Verdict::Flip => before.push(hits[n - 1].flipped()),
            Verdict::Drop => before,
        }
    }
}

/// Executable form of the case table.
pub fn decide(
    csg_type: CSGType,
    entering: bool,
    left_before: bool,
    right_before: bool,
    left: bool,
    right: bool,
) -> (v: Verdict)
    ensures
        v == verdict(csg_type, entering, left_before, right_before, left, right),
{
    match csg_type {
        CSGType::Union => {
            if (entering && (left || right)) || (!entering && !left && !right) {
                Verdict::Keep
            } else {
                Verdict::Drop
            }
        },
        CSGType::Intersection => {
            if (entering && left && right) || (!entering && (!left || !right)) {
                Verdict::Keep
            } else {
                Verdict::Drop
            }
        },
        CSGType::Subtract => {
            if left && !left_before && !right && !right_before {
                Verdict::Keep
            } else if !left && left_before && !right && !right_before {
                Verdict::Keep
            } else if left && left_before && right && !right_before {
                Verdict::Flip
            } else if left && left_before && !right && right_before {
                Verdict::Flip
            } else {
                Verdict::Drop
            }
        },
    }
}

/// Tells whether the ray starts inside the given side of the composite.
pub fn ray_starts_inside(csg_index: usize, hits: &Vec<Hit>, index: usize, left: bool) -> (b: bool)
    ensures
        b == starts_inside(csg_index, index, hits@, left),
{
    let mut i: usize = 0;
    while i < hits.len()
        invariant
            i <= hits.len(),
            starts_inside_from(csg_index, index, hits@, left, i as int) == starts_inside(
                csg_index,
                index,
                hits@,
                left,
            ),
        decreases hits.len() - i,
    {
        let h: Hit = hits[i];
        if h.obj_index == index && is_node_left(csg_index, h.csg_index) == Some(left) {
            return !h.correct_dir;
        }
        i += 1;
    }
    false
}

/// Rewrites an ordered list of crossings for one composite solid whose
/// children have already rewritten it. Crossings of other objects, and of
/// leaves that are not below this node, pass through. For each crossing of
/// the composite the state of the side it lies on changes to its direction,
/// and the case table decides whether it is kept, kept reversed or removed.
pub fn filter_node(csg_type: CSGType, csg_index: usize, hits: Vec<Hit>, index: usize) -> (out: Vec<
    Hit,
>)
    ensures
        out@ == filtered(csg_type, csg_index, index, hits@, hits@.len()),
{
    let mut inside_left: bool = ray_starts_inside(csg_index, &hits, index, true);
    let mut inside_right: bool = ray_starts_inside(csg_index, &hits, index, false);
    let mut out: Vec<Hit> = Vec::new();
    let mut i: usize = 0;
    while i < hits.len()
        invariant
            i <= hits.len(),
            inside_left == inside_after(csg_index, index, hits@, true, i as nat),
            inside_right == inside_after(csg_index, index, hits@, false, i as nat),
            out@ == filtered(csg_type, csg_index, index, hits@, i as nat),
        decreases hits.len() - i,
    {
        let mut h: Hit = hits[i];
        let side: Option<bool> = if h.obj_index == index {
            is_node_left(csg_index, h.csg_index)
        } else {
            None
        };
        match side {
            None => {
                out.push(h);
            },
            Some(on_left) => {
                let left_before: bool = inside_left;
                let right_before: bool = inside_right;
                if on_left {
                    inside_left = h.correct_dir;
                } else {
                    inside_right = h.correct_dir;
                }
                match decide(
                    csg_type,
                    h.correct_dir,
                    left_before,
                    right_before,
                    inside_left,
                    inside_right,
                ) {
                    Verdict::Keep => {
                        out.push(h);
                    },
                    Verdict::Flip => {
                        h.flip();
                        out.push(h);
                    },
                    Verdict::Drop => {},
                }
            },
        }
        i += 1;
    }
    out
}

} // verus!
