//! What holds of the numbering of an object tree: a crossing is traced back
//! to the right side of every composite above its leaf, and to no composite
//! beside it.

use vstd::prelude::*;
use crate::csg::node_side;
use crate::object::{Object, CSG};

verus! {

/// Whether node `node` is `root` or lies below it.
pub open spec fn at_or_below(root: nat, node: nat) -> bool {
    node == root || node_side(root, node) is Some
}

/// Branches are inherited: what lies below a node that lies on a branch of
/// `root` lies on the same branch of `root`.
pub proof fn node_side_is_inherited(root: nat, middle: nat, node: nat)
    requires
        node_side(root, middle) is Some,
        node_side(middle, node) is Some,
    ensures
        node_side(root, node) == node_side(root, middle),
    decreases node,
{
    if node != 2 * middle && node != 2 * middle + 1 {
        node_side_is_inherited(root, middle, node / 2);
    }
}

/// Neither child of a node lies below the other.
pub proof fn children_are_not_nested(parent: nat)
    requires
        parent >= 1,
    ensures
        node_side(2 * parent, 2 * parent + 1) is None,
        node_side(2 * parent + 1, 2 * parent) is None,
{
    assert((2 * parent + 1) / 2 == parent);
    assert(node_side(2 * parent, parent) is None);
}

/// Nothing lies below both children of a node.
pub proof fn siblings_share_nothing(parent: nat, node: nat)
    requires
        parent >= 1,
    ensures
        !(node_side(2 * parent, node) is Some && node_side(2 * parent + 1, node) is Some),
    decreases node,
{
    if node_side(2 * parent, node) is Some && node_side(2 * parent + 1, node) is Some {
        if node == 4 * parent || node == 4 * parent + 1 {
            assert(node / 2 == 2 * parent);
            assert(node_side(2 * parent + 1, 2 * parent) is None);
        } else if node == 4 * parent + 2 || node == 4 * parent + 3 {
            assert(node / 2 == 2 * parent + 1);
            children_are_not_nested(parent);
        } else {
            siblings_share_nothing(parent, node / 2);
        }
    }
}

/// Every leaf of a tree numbered from `root` is `root` or lies below it.
pub proof fn leaves_lie_below_root(object: Object, root: nat, leaf: nat)
    requires
        root >= 1,
        object.fits(root),
        object.indexed(root).leaves().contains(leaf),
    ensures
        at_or_below(root, leaf),
    decreases object,
{
    match object {
        Object::Solid(_) => {},
        Object::CSG(c) => {
            sides_are_told_apart(c, root, leaf);
        },
    }
}

/// In a composite numbered from `root`, every leaf of the left side lies on
/// the left branch of `root` and every leaf of the right side on the right
/// branch: `is_node_left` tells the sides of its crossings apart.
pub proof fn sides_are_told_apart(c: CSG, root: nat, leaf: nat)
    requires
        root >= 1,
        Object::CSG(c).fits(root),
    ensures
        c.left.indexed(2 * root).leaves().contains(leaf) ==> node_side(root, leaf) == Some(true),
        c.right.indexed(2 * root + 1).leaves().contains(leaf) ==> node_side(root, leaf) == Some(
            false,
        ),
    decreases c,
{
    if c.left.indexed(2 * root).leaves().contains(leaf) {
        leaves_lie_below_root(*c.left, 2 * root, leaf);
        if leaf != 2 * root {
            node_side_is_inherited(root, 2 * root, leaf);
        }
    }
    if c.right.indexed(2 * root + 1).leaves().contains(leaf) {
        leaves_lie_below_root(*c.right, 2 * root + 1, leaf);
        if leaf != 2 * root + 1 {
            node_side_is_inherited(root, 2 * root + 1, leaf);
        }
    }
}

/// A composite claims no crossing of the other side of a composite above
/// it: with `parent >= 1`, a node at or below one child of `parent` has no
/// leaf of the other child on either of its branches.
pub proof fn composites_leave_strangers_alone(parent: nat, node: nat, leaf: nat)
    requires
        parent >= 1,
        (at_or_below(2 * parent, node) && at_or_below(2 * parent + 1, leaf)) || (at_or_below(
            2 * parent + 1,
            node,
        ) && at_or_below(2 * parent, leaf)),
    ensures
        node_side(node, leaf) is None,
{
    if node_side(node, leaf) is Some {
        siblings_share_nothing(parent, leaf);
        children_are_not_nested(parent);
        if at_or_below(2 * parent, node) && at_or_below(2 * parent + 1, leaf) {
            if node != 2 * parent {
                node_side_is_inherited(2 * parent, node, leaf);
            }
            assert(node_side(2 * parent, leaf) is Some);
        } else {
            if node != 2 * parent + 1 {
                node_side_is_inherited(2 * parent + 1, node, leaf);
            }
            assert(node_side(2 * parent + 1, leaf) is Some);
        }
    }
}

/// Every primitive of an object carries the object's index and the number
/// of one of its leaves.
pub proof fn primitives_carry_leaf_numbers(object: Object, obj_index: usize, k: int)
    requires
        0 <= k < object.primitive_seq(obj_index).len(),
    ensures
        object.primitive_seq(obj_index)[k].obj_index == obj_index,
        object.leaves().contains(object.primitive_seq(obj_index)[k].csg_index as nat),
    decreases object,
{
    match object {
        Object::Solid(_) => {},
        Object::CSG(c) => {
            let left = c.left.primitive_seq(obj_index);
            if k < left.len() {
                primitives_carry_leaf_numbers(*c.left, obj_index, k);
            } else {
                primitives_carry_leaf_numbers(*c.right, obj_index, k - left.len());
            }
        },
    }
}

/// In a composite numbered from `root`, every primitive of the left side
/// makes crossings that `is_node_left` puts on the left branch of `root`,
/// and every primitive of the right side crossings that it puts on the
/// right branch.
pub proof fn crossings_are_told_apart(c: CSG, root: nat, obj_index: usize, k: int)
    requires
        root >= 1,
        Object::CSG(c).fits(root),
    ensures
        0 <= k < c.left.indexed(2 * root).primitive_seq(obj_index).len() ==> node_side(
            root,
            c.left.indexed(2 * root).primitive_seq(obj_index)[k].csg_index as nat,
        ) == Some(true),
        0 <= k < c.right.indexed(2 * root + 1).primitive_seq(obj_index).len() ==> node_side(
            root,
            c.right.indexed(2 * root + 1).primitive_seq(obj_index)[k].csg_index as nat,
        ) == Some(false),
{
    let left = c.left.indexed(2 * root);
    if 0 <= k < left.primitive_seq(obj_index).len() {
        primitives_carry_leaf_numbers(left, obj_index, k);
        sides_are_told_apart(c, root, left.primitive_seq(obj_index)[k].csg_index as nat);
    }
    let right = c.right.indexed(2 * root + 1);
    if 0 <= k < right.primitive_seq(obj_index).len() {
        primitives_carry_leaf_numbers(right, obj_index, k);
        sides_are_told_apart(c, root, right.primitive_seq(obj_index)[k].csg_index as nat);
    }
}

} // verus!
