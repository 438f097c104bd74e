use graphics_lib::constants::{
    EPSILON_DEPTH, MAX_PHOTON_RECURSE_DEPTH, MAX_RECURSE_DEPTH, NUMBER_CAUSTICS_PER_LIGHT_PER_OBJ,
    NUMBER_PHOTONS_PER_LIGHT, ORIGIN_DEPTH,
};
use graphics_lib::hit::{depth_from_bits, Hit};
use graphics_lib::scene::DEPTH_CAP;
use graphics_lib::sorting::sort_hits;

fn key(x: f64) -> i64 {
    depth_from_bits(x.to_bits()).unwrap()
}

#[test]
fn constants_have_their_values() {
    assert_eq!(MAX_RECURSE_DEPTH, 10);
    assert_eq!(MAX_PHOTON_RECURSE_DEPTH, 6);
    assert_eq!(NUMBER_PHOTONS_PER_LIGHT, 500_000);
    assert_eq!(NUMBER_CAUSTICS_PER_LIGHT_PER_OBJ, 100_000);
}

#[test]
fn depth_keys_of_the_thresholds() {
    assert_eq!(key(0.0), ORIGIN_DEPTH);
    assert_eq!(key(1.0e-6), EPSILON_DEPTH);
    assert_eq!(key(100.0), DEPTH_CAP);
}

#[test]
fn both_zeros_share_a_key() {
    assert_eq!(key(0.0), 0);
    assert_eq!(key(-0.0), 0);
}

#[test]
fn depth_keys_of_given_doubles() {
    assert_eq!(key(1.0), 0x3FF0_0000_0000_0000);
    assert_eq!(key(-1.0), -0x3FF0_0000_0000_0000);
    assert_eq!(key(f64::INFINITY), 0x7FF0_0000_0000_0000);
    assert_eq!(key(f64::NEG_INFINITY), -0x7FF0_0000_0000_0000);
    assert_eq!(key(f64::from_bits(1)), 1);
    assert_eq!(key(-f64::from_bits(1)), -1);
}

#[test]
fn what_is_not_a_number_has_no_key() {
    assert_eq!(depth_from_bits(f64::NAN.to_bits()), None);
    assert_eq!(depth_from_bits(0x7FF0_0000_0000_0001), None);
    assert_eq!(depth_from_bits(0xFFF0_0000_0000_0001), None);
    assert_eq!(depth_from_bits(u64::MAX), None);
}

#[test]
fn depth_keys_order_as_doubles_do() {
    let xs = [
        f64::NEG_INFINITY,
        -1.0e300,
        -1000.0,
        -1.5,
        -1.0e-6,
        -1.0e-300,
        -0.0,
        0.0,
        1.0e-300,
        1.0e-8,
        1.0e-6,
        0.01,
        0.5,
        1.0,
        99.999,
        100.0,
        1.0e10,
        f64::INFINITY,
    ];
    for a in xs {
        for b in xs {
            assert_eq!(key(a) < key(b), a < b);
            assert_eq!(key(a) == key(b), a == b);
        }
    }
}

#[test]
fn a_key_in_front_of_the_origin_is_the_bit_pattern() {
    for x in [0.25f64, 3.0, 100.0, 12345.678] {
        assert_eq!(f64::from_bits(key(x) as u64), x);
    }
}

#[test]
fn new_hit_is_not_reversed() {
    let h = Hit::new(7, -3, true, 2, 5);
    assert_eq!(h.get_tag(), 7);
    assert_eq!(h.get_distance(), -3);
    assert!(h.get_dir());
    assert_eq!(h.get_object_index(), 2);
    assert_eq!(h.get_csg_index(), 5);
    assert!(!h.is_reversed());
}

#[test]
fn sort_orders_by_depth_with_negative_depths_first() {
    let hits = vec![
        Hit::new(0, 5, true, 0, 1),
        Hit::new(1, -2, false, 1, 1),
        Hit::new(2, 3, true, 2, 1),
        Hit::new(3, 0, false, 3, 1),
    ];
    let out = sort_hits(hits);
    let tags: Vec<usize> = out.iter().map(|h| h.get_tag()).collect();
    assert_eq!(tags, vec![1, 3, 2, 0]);
}

#[test]
fn sort_keeps_the_order_of_equal_depths() {
    let hits = vec![
        Hit::new(0, 4, true, 0, 1),
        Hit::new(1, 1, true, 0, 1),
        Hit::new(2, 4, false, 1, 1),
        Hit::new(3, 1, false, 1, 1),
        Hit::new(4, 4, true, 2, 1),
    ];
    let out = sort_hits(hits);
    let tags: Vec<usize> = out.iter().map(|h| h.get_tag()).collect();
    assert_eq!(tags, vec![1, 3, 0, 2, 4]);
}

#[test]
fn sort_of_nothing_and_of_one() {
    assert!(sort_hits(Vec::new()).is_empty());
    let one = vec![Hit::new(0, 9, true, 0, 1)];
    assert_eq!(sort_hits(one.clone()), one);
}

#[test]
fn sort_agrees_with_the_stable_sort_of_the_standard_library() {
    let mut seed: u64 = 0x2545_F491_4F6C_DD1D;
    for _ in 0..200 {
        let mut hits = Vec::new();
        let n = (seed % 9) as usize;
        for t in 0..n {
            seed ^= seed << 13;
            seed ^= seed >> 7;
            seed ^= seed << 17;
            let depth = (seed % 7) as i64 - 3;
            hits.push(Hit::new(t, depth, seed & 8 == 0, (seed % 3) as usize, 1));
        }
        let mut expected = hits.clone();
        expected.sort_by(|l, r| l.get_distance().cmp(&r.get_distance()));
        assert_eq!(sort_hits(hits), expected);
    }
}
