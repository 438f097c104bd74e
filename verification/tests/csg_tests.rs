use graphics_lib::csg::{decide, filter_node, is_node_left, ray_starts_inside, CSGType, Verdict};
use graphics_lib::hit::Hit;

fn hit(tag: usize, depth: i64, entering: bool, obj: usize, csg: usize) -> Hit {
    Hit::new(tag, depth, entering, obj, csg)
}

// Two overlapping solids on one ray: the left one spans depths 1..3, the
// right one 2..4, as leaves 2 and 3 of the composite numbered 1.
fn overlapping() -> Vec<Hit> {
    vec![
        hit(0, 1, true, 0, 2),
        hit(1, 2, true, 0, 3),
        hit(2, 3, false, 0, 2),
        hit(3, 4, false, 0, 3),
    ]
}

#[test]
fn node_side_of_direct_children() {
    assert_eq!(is_node_left(1, 2), Some(true));
    assert_eq!(is_node_left(1, 3), Some(false));
    assert_eq!(is_node_left(3, 6), Some(true));
    assert_eq!(is_node_left(3, 7), Some(false));
}

#[test]
fn node_side_of_deeper_descendants() {
    assert_eq!(is_node_left(1, 6), Some(false));
    assert_eq!(is_node_left(1, 4), Some(true));
    assert_eq!(is_node_left(1, 13), Some(false));
    assert_eq!(is_node_left(2, 9), Some(true));
    assert_eq!(is_node_left(2, 11), Some(false));
}

#[test]
fn node_side_of_unrelated_nodes() {
    assert_eq!(is_node_left(2, 3), None);
    assert_eq!(is_node_left(2, 6), None);
    assert_eq!(is_node_left(3, 4), None);
    assert_eq!(is_node_left(5, 5), None);
    assert_eq!(is_node_left(5, 1), None);
    assert_eq!(is_node_left(1, 1), None);
}

#[test]
fn node_side_of_node_zero() {
    assert_eq!(is_node_left(0, 0), None);
    assert_eq!(is_node_left(0, 1), Some(false));
    assert_eq!(is_node_left(0, 8), Some(false));
}

#[test]
fn node_side_at_the_end_of_the_index_range() {
    assert_eq!(is_node_left(usize::MAX, usize::MAX), None);
    assert_eq!(is_node_left(usize::MAX / 2, usize::MAX), Some(false));
    assert_eq!(is_node_left(usize::MAX / 2, usize::MAX - 1), Some(true));
    assert_eq!(is_node_left(usize::MAX - 1, usize::MAX), None);
}

#[test]
fn ray_from_outside_starts_outside() {
    let hits = overlapping();
    assert!(!ray_starts_inside(1, &hits, 0, true));
    assert!(!ray_starts_inside(1, &hits, 0, false));
}

#[test]
fn ray_whose_first_crossing_is_an_exit_starts_inside() {
    let hits = vec![hit(0, -1, false, 0, 2), hit(1, 2, true, 0, 3), hit(2, 5, false, 0, 3)];
    assert!(ray_starts_inside(1, &hits, 0, true));
    assert!(!ray_starts_inside(1, &hits, 0, false));
    assert!(!ray_starts_inside(1, &hits, 1, true));
}

#[test]
fn union_of_overlapping_solids() {
    let out = filter_node(CSGType::Union, 1, overlapping(), 0);
    assert_eq!(out, vec![hit(0, 1, true, 0, 2), hit(1, 2, true, 0, 3), hit(3, 4, false, 0, 3)]);
}

#[test]
fn intersection_of_overlapping_solids() {
    let out = filter_node(CSGType::Intersection, 1, overlapping(), 0);
    assert_eq!(out, vec![hit(1, 2, true, 0, 3), hit(2, 3, false, 0, 2), hit(3, 4, false, 0, 3)]);
}

#[test]
fn subtract_of_overlapping_solids_reverses_the_carved_surface() {
    let out = filter_node(CSGType::Subtract, 1, overlapping(), 0);
    assert_eq!(out.len(), 2);
    assert_eq!(out[0], hit(0, 1, true, 0, 2));
    assert_eq!(out[1].get_tag(), 1);
    assert_eq!(out[1].get_distance(), 2);
    assert!(!out[1].get_dir());
    assert!(out[1].is_reversed());
    assert_eq!(out[1].get_csg_index(), 3);
}

#[test]
fn subtract_of_a_solid_carved_through_the_middle() {
    // left spans 1..6, right spans 2..4: the ray leaves at 2, enters again at 4.
    let hits = vec![
        hit(0, 1, true, 0, 2),
        hit(1, 2, true, 0, 3),
        hit(2, 4, false, 0, 3),
        hit(3, 6, false, 0, 2),
    ];
    let out = filter_node(CSGType::Subtract, 1, hits, 0);
    assert_eq!(out.len(), 4);
    assert_eq!((out[0].get_dir(), out[0].is_reversed()), (true, false));
    assert_eq!((out[1].get_dir(), out[1].is_reversed()), (false, true));
    assert_eq!((out[2].get_dir(), out[2].is_reversed()), (true, true));
    assert_eq!((out[3].get_dir(), out[3].is_reversed()), (false, false));
    assert_eq!(out[2].get_tag(), 2);
}

#[test]
fn subtract_emits_no_entry_inside_the_carved_solid() {
    // right spans 0..5 and covers the left one, which spans 1..3.
    let hits = vec![
        hit(0, 0, true, 0, 3),
        hit(1, 1, true, 0, 2),
        hit(2, 3, false, 0, 2),
        hit(3, 5, false, 0, 3),
    ];
    let out = filter_node(CSGType::Subtract, 1, hits, 0);
    assert!(out.is_empty());
}

#[test]
fn crossings_of_other_objects_pass_through() {
    let mut hits = overlapping();
    hits.insert(2, hit(9, 2, true, 1, 1));
    hits.push(hit(10, 8, false, 1, 1));
    let out = filter_node(CSGType::Intersection, 1, hits, 0);
    assert_eq!(
        out,
        vec![
            hit(1, 2, true, 0, 3),
            hit(9, 2, true, 1, 1),
            hit(2, 3, false, 0, 2),
            hit(3, 4, false, 0, 3),
            hit(10, 8, false, 1, 1),
        ]
    );
}

#[test]
fn crossings_of_leaves_beside_the_node_pass_through() {
    // node 2 has leaves 4 and 5; leaf 3 is its sibling.
    let hits = vec![hit(0, 1, true, 0, 3), hit(1, 2, true, 0, 4), hit(2, 3, false, 0, 3)];
    let out = filter_node(CSGType::Intersection, 2, hits, 0);
    assert_eq!(out, vec![hit(0, 1, true, 0, 3), hit(2, 3, false, 0, 3)]);
}

#[test]
fn empty_list_stays_empty() {
    assert!(filter_node(CSGType::Union, 1, Vec::new(), 0).is_empty());
    assert!(filter_node(CSGType::Subtract, 1, Vec::new(), 0).is_empty());
}

#[test]
fn union_seen_from_inside_both() {
    let hits = vec![hit(0, 1, false, 0, 2), hit(1, 2, false, 0, 3)];
    let out = filter_node(CSGType::Union, 1, hits, 0);
    assert_eq!(out, vec![hit(1, 2, false, 0, 3)]);
}

#[test]
fn case_table_of_union_and_intersection() {
    assert_eq!(decide(CSGType::Union, true, false, false, true, false), Verdict::Keep);
    assert_eq!(decide(CSGType::Union, false, true, true, false, true), Verdict::Drop);
    assert_eq!(decide(CSGType::Union, false, true, false, false, false), Verdict::Keep);
    assert_eq!(decide(CSGType::Intersection, true, false, false, true, false), Verdict::Drop);
    assert_eq!(decide(CSGType::Intersection, true, false, true, true, true), Verdict::Keep);
    assert_eq!(decide(CSGType::Intersection, false, true, true, false, true), Verdict::Keep);
}

#[test]
fn case_table_of_subtract() {
    // entered left, not in right
    assert_eq!(decide(CSGType::Subtract, true, false, false, true, false), Verdict::Keep);
    // left left, not in right
    assert_eq!(decide(CSGType::Subtract, false, true, false, false, false), Verdict::Keep);
    // entered right, inside left
    assert_eq!(decide(CSGType::Subtract, true, true, false, true, true), Verdict::Flip);
    // left right, inside left
    assert_eq!(decide(CSGType::Subtract, false, true, true, true, false), Verdict::Flip);
    // entered left while inside right
    assert_eq!(decide(CSGType::Subtract, true, false, true, true, true), Verdict::Drop);
    // entered right while outside left
    assert_eq!(decide(CSGType::Subtract, true, false, false, false, true), Verdict::Drop);
    // nothing changed
    assert_eq!(decide(CSGType::Subtract, true, true, false, true, false), Verdict::Drop);
}

#[test]
fn flip_turns_a_crossing_round_and_back() {
    let mut h = hit(4, -7, true, 2, 5);
    h.flip();
    assert!(!h.get_dir());
    assert!(h.is_reversed());
    assert_eq!(h.get_object_index(), 2);
    assert_eq!(h.get_distance(), -7);
    h.flip();
    assert_eq!(h, hit(4, -7, true, 2, 5));
}
