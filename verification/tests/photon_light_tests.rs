use graphics_lib::hit::Hit;
use graphics_lib::light::{
    directional_light_is_dark, occluded, photon_hint, point_light_is_dark, Hint, PHOTON_QUORUM,
};
use graphics_lib::photon::{count_photons, Photon, PhotonType};
use graphics_lib::sampling::{spiral_index, NUMBER_POINTS};

fn photons(shadow: usize, direct: usize, light: usize) -> Vec<Photon> {
    let mut v = Vec::new();
    for _ in 0..shadow {
        v.push(Photon::new_shadow(light, 0));
    }
    for _ in 0..direct {
        v.push(Photon::new_direct(light, 0));
    }
    v.push(Photon::new_indirect(light, 0));
    v.push(Photon::new_caustic(light, 0));
    v
}

#[test]
fn photons_are_made_of_their_kind() {
    assert_eq!(
        Photon::new_shadow(1, 2),
        Photon { p_type: PhotonType::Shadow, light_index: 1, obj: 2 }
    );
    assert_eq!(Photon::new_direct(1, 2).get_type(), PhotonType::Direct);
    assert_eq!(Photon::new_indirect(1, 2).get_type(), PhotonType::Indirect);
    assert_eq!(Photon::new_caustic(1, 2).get_type(), PhotonType::Caustic);
    assert_eq!(Photon::new_caustic(3, 4).get_light_index(), 3);
    assert_eq!(Photon::new_caustic(3, 4).get_obj(), 4);
}

#[test]
fn photons_tell_their_kind() {
    assert!(Photon::new_shadow(0, 0).is_shadow());
    assert!(!Photon::new_shadow(0, 0).is_direct());
    assert!(Photon::new_direct(0, 0).is_direct());
    assert!(!Photon::new_direct(0, 0).is_shadow());
    assert!(!Photon::new_indirect(0, 0).is_shadow());
    assert!(!Photon::new_indirect(0, 0).is_direct());
    assert!(!Photon::new_caustic(0, 0).is_shadow());
    assert!(!Photon::new_caustic(0, 0).is_direct());
}

#[test]
fn photons_are_counted_by_kind_and_light() {
    let mut v = photons(3, 2, 0);
    v.extend(photons(1, 4, 1));
    assert_eq!(count_photons(&v, PhotonType::Shadow, 0), 3);
    assert_eq!(count_photons(&v, PhotonType::Direct, 0), 2);
    assert_eq!(count_photons(&v, PhotonType::Shadow, 1), 1);
    assert_eq!(count_photons(&v, PhotonType::Direct, 1), 4);
    assert_eq!(count_photons(&v, PhotonType::Indirect, 1), 1);
    assert_eq!(count_photons(&v, PhotonType::Direct, 2), 0);
    assert_eq!(count_photons(&Vec::new(), PhotonType::Direct, 0), 0);
}

#[test]
fn hint_needs_more_than_two_photons_of_one_kind_alone() {
    assert_eq!(PHOTON_QUORUM, 2);
    assert_eq!(photon_hint(&photons(3, 0, 0), 0), Hint::Dark);
    assert_eq!(photon_hint(&photons(2, 0, 0), 0), Hint::Unsure);
    assert_eq!(photon_hint(&photons(3, 1, 0), 0), Hint::Unsure);
    assert_eq!(photon_hint(&photons(0, 3, 0), 0), Hint::Lit);
    assert_eq!(photon_hint(&photons(0, 2, 0), 0), Hint::Unsure);
    assert_eq!(photon_hint(&photons(1, 3, 0), 0), Hint::Unsure);
    assert_eq!(photon_hint(&photons(0, 0, 0), 0), Hint::Unsure);
    assert_eq!(photon_hint(&Vec::new(), 0), Hint::Unsure);
}

#[test]
fn hint_reads_the_photons_of_its_light_only() {
    let mut v = photons(5, 0, 1);
    assert_eq!(photon_hint(&v, 0), Hint::Unsure);
    assert_eq!(photon_hint(&v, 1), Hint::Dark);
    v.extend(photons(0, 3, 0));
    assert_eq!(photon_hint(&v, 0), Hint::Lit);
    assert_eq!(photon_hint(&v, 1), Hint::Dark);
}

#[test]
fn shadow_ray_is_hidden_by_an_entry_before_the_point() {
    let hits = vec![Hit::new(0, -4, true, 0, 1), Hit::new(1, 5, true, 0, 1)];
    assert!(occluded(&hits, 6));
    assert!(!occluded(&hits, 5));
    assert!(!occluded(&hits, 0));
    assert!(!occluded(&Vec::new(), 100));
}

#[test]
fn shadow_ray_is_not_hidden_by_exits_or_by_what_lies_behind_the_light() {
    let hits = vec![
        Hit::new(0, -4, true, 0, 1),
        Hit::new(1, 0, true, 0, 1),
        Hit::new(2, 3, false, 0, 1),
        Hit::new(3, 9, true, 0, 1),
    ];
    assert!(!occluded(&hits, 9));
    assert!(occluded(&hits, 10));
}

#[test]
fn point_light_goes_by_the_photons_first() {
    let hidden = vec![Hit::new(0, 2, true, 0, 1)];
    let clear: Vec<Hit> = Vec::new();
    assert!(point_light_is_dark(&photons(3, 0, 0), 0, &clear, 10));
    assert!(!point_light_is_dark(&photons(0, 3, 0), 0, &hidden, 10));
    assert!(point_light_is_dark(&photons(1, 1, 0), 0, &hidden, 10));
    assert!(!point_light_is_dark(&photons(1, 1, 0), 0, &clear, 10));
    assert!(!point_light_is_dark(&photons(4, 4, 0), 0, &clear, 10));
}

#[test]
fn directional_light_is_blocked_by_anything_behind_the_point() {
    let hits = vec![Hit::new(0, -1, false, 0, 1), Hit::new(1, 4, true, 0, 1)];
    assert!(directional_light_is_dark(&hits, 0));
    assert!(!directional_light_is_dark(&hits, -1));
    assert!(!directional_light_is_dark(&hits, -2));
    assert!(!directional_light_is_dark(&Vec::new(), 0));
}

#[test]
fn spiral_index_is_a_point_of_the_spiral() {
    assert_eq!(NUMBER_POINTS, 100_000_000);
    for _ in 0..1000 {
        assert!(spiral_index() < NUMBER_POINTS);
    }
}

#[test]
fn spiral_index_varies() {
    let first = spiral_index();
    let mut differs = false;
    for _ in 0..64 {
        if spiral_index() != first {
            differs = true;
        }
    }
    assert!(differs);
}
