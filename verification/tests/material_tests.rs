use graphics_lib::constants::{MAX_PHOTON_RECURSE_DEPTH, MAX_RECURSE_DEPTH};
use graphics_lib::hit::Hit;
use graphics_lib::material::{
    deeper, deeper_photon, AmbientMaterial, Branch, CompoundMaterial, DiffuseMaterial,
    FalseColorMaterial, InternalPlan, Material, PhotonStep, ReflectiveMaterial,
    SimpleColorMaterial, SpecularMaterial, SplitPlan, TransparentMaterial,
};
use graphics_lib::photon::{Photon, PhotonType};

#[test]
fn simple_materials_are_made() {
    assert_eq!(AmbientMaterial::new(), AmbientMaterial {});
    assert_eq!(DiffuseMaterial::new(), DiffuseMaterial {});
    assert_eq!(SpecularMaterial::new(10).power, 10);
    assert_eq!(SpecularMaterial::new(-3).power, -3);
    assert_eq!(ReflectiveMaterial::new().mat_index, 0);
    assert_eq!(FalseColorMaterial::new().mat_index, 0);
    assert_eq!(TransparentMaterial::new(), TransparentMaterial {});
}

#[test]
fn simple_color_material_keeps_its_index() {
    let mut m = SimpleColorMaterial::new();
    assert_eq!(m.get_mat_index(), 0);
    m.update_mat_index(12);
    assert_eq!(m.get_mat_index(), 12);
}

#[test]
fn only_transparent_materials_need_caustics() {
    assert!(!AmbientMaterial::new().needs_caustic());
    assert!(!DiffuseMaterial::new().needs_caustic());
    assert!(!SpecularMaterial::new(10).needs_caustic());
    assert!(!ReflectiveMaterial::new().needs_caustic());
    assert!(!FalseColorMaterial::new().needs_caustic());
    assert!(!SimpleColorMaterial::new().needs_caustic());
    assert!(TransparentMaterial::new().needs_caustic());
    assert!(Material::Transparent(TransparentMaterial::new()).needs_caustic());
    assert!(!Material::Reflective(ReflectiveMaterial::new()).needs_caustic());
}

#[test]
fn mixture_needs_caustics_if_a_child_does() {
    assert!(!CompoundMaterial::new(Vec::new()).needs_caustic());
    assert!(!CompoundMaterial::new_matte_material().needs_caustic());
    assert!(!CompoundMaterial::new_reflective_material().needs_caustic());
    assert!(CompoundMaterial::new_transparent_material().needs_caustic());
    assert!(CompoundMaterial::new_transparent_material_opacity().needs_caustic());
}

#[test]
fn mixture_needs_caustics_for_a_transparent_part_at_any_depth() {
    let deep = CompoundMaterial::new(vec![
        Material::Diffuse(DiffuseMaterial::new()),
        Material::Compound(CompoundMaterial::new(vec![
            Material::Ambient(AmbientMaterial::new()),
            Material::Compound(CompoundMaterial::new(vec![Material::Transparent(
                TransparentMaterial::new(),
            )])),
        ])),
    ]);
    assert!(deep.needs_caustic());
    let dull = CompoundMaterial::new(vec![
        Material::Diffuse(DiffuseMaterial::new()),
        Material::Compound(CompoundMaterial::new(vec![
            Material::Ambient(AmbientMaterial::new()),
            Material::Compound(CompoundMaterial::new(Vec::new())),
        ])),
    ]);
    assert!(!dull.needs_caustic());
}

#[test]
fn ready_made_mixtures_have_their_parts() {
    let matte = CompoundMaterial::new_matte_material();
    assert_eq!(
        matte.materials,
        vec![
            Material::Ambient(AmbientMaterial {}),
            Material::Diffuse(DiffuseMaterial {}),
            Material::Specular(SpecularMaterial { power: 10 }),
        ]
    );
    let mirror = CompoundMaterial::new_reflective_material();
    assert_eq!(mirror.materials.len(), 2);
    assert_eq!(mirror.materials[0], Material::Compound(CompoundMaterial::new_matte_material()));
    assert_eq!(mirror.materials[1], Material::Reflective(ReflectiveMaterial { mat_index: 0 }));
    let glass = CompoundMaterial::new_transparent_material();
    assert_eq!(glass.materials.len(), 2);
    assert_eq!(glass.materials[1], Material::Transparent(TransparentMaterial {}));
    let milky = CompoundMaterial::new_transparent_material_opacity();
    assert_eq!(milky.materials.len(), 3);
    assert_eq!(milky.materials[1], Material::Transparent(TransparentMaterial {}));
    assert_eq!(milky.materials[2], Material::Diffuse(DiffuseMaterial {}));
}

#[test]
fn colour_recursion_stops_at_the_depth_limit() {
    assert_eq!(deeper(0, true), Some(1));
    assert_eq!(deeper(9, true), Some(10));
    assert_eq!(deeper(10, true), None);
    assert_eq!(deeper(11, true), None);
    assert_eq!(deeper(usize::MAX, true), None);
    assert_eq!(deeper(MAX_RECURSE_DEPTH - 1, true), Some(MAX_RECURSE_DEPTH));
}

#[test]
fn colour_recursion_stops_when_the_power_is_spent() {
    assert_eq!(deeper(0, false), None);
    assert_eq!(deeper(5, false), None);
}

#[test]
fn photon_recursion_stops_at_its_own_limit() {
    assert_eq!(deeper_photon(0, true), Some(1));
    assert_eq!(deeper_photon(5, true), Some(6));
    assert_eq!(deeper_photon(6, true), None);
    assert_eq!(deeper_photon(3, false), None);
    assert_eq!(deeper_photon(MAX_PHOTON_RECURSE_DEPTH, true), None);
}

#[test]
fn two_facing_mirrors_end_within_the_depth_limit() {
    // The ray bounces between two mirrors for ever; the carried power of a
    // perfect mirror never fades.
    let mirror = ReflectiveMaterial::new();
    let mut level = 0;
    let mut calls = 0;
    while let Some(next) = mirror.compute(level, true) {
        assert_eq!(next, level + 1);
        level = next;
        calls += 1;
        assert!(calls <= MAX_RECURSE_DEPTH);
    }
    assert_eq!(calls, MAX_RECURSE_DEPTH);
}

#[test]
fn mirror_with_fading_power_ends_sooner() {
    let mirror = ReflectiveMaterial::new();
    assert_eq!(mirror.compute(0, true), Some(1));
    assert_eq!(mirror.compute(1, true), Some(2));
    assert_eq!(mirror.compute(2, false), None);
}

#[test]
fn absorbed_photon_leaves_one_indirect_photon() {
    let out = AmbientMaterial::new().compute_photon(4, 2);
    assert_eq!(out, vec![Photon { p_type: PhotonType::Indirect, light_index: 2, obj: 4 }]);
}

#[test]
fn false_colour_leaves_no_photon() {
    assert!(FalseColorMaterial::new().compute_photon().is_empty());
}

#[test]
fn mixture_adds_an_indirect_photon_behind_the_childs() {
    let m = CompoundMaterial::new_matte_material();
    let from_child = vec![Photon::new_direct(1, 9), Photon::new_shadow(1, 8)];
    let out = m.compute_photon(from_child, 3, 1);
    assert_eq!(
        out,
        vec![Photon::new_direct(1, 9), Photon::new_shadow(1, 8), Photon::new_indirect(1, 3)]
    );
    assert_eq!(m.compute_photon(Vec::new(), 0, 0), vec![Photon::new_indirect(0, 0)]);
}

#[test]
fn ambient_gathers_indirect_photons_of_its_object() {
    let a = AmbientMaterial::new();
    assert!(a.gathers(&Photon::new_indirect(0, 3), 3));
    assert!(a.gathers(&Photon::new_indirect(7, 3), 3));
    assert!(!a.gathers(&Photon::new_indirect(0, 4), 3));
    assert!(!a.gathers(&Photon::new_direct(0, 3), 3));
    assert!(!a.gathers(&Photon::new_shadow(0, 3), 3));
    assert!(!a.gathers(&Photon::new_caustic(0, 3), 3));
}

#[test]
fn view_ray_at_a_transparent_surface() {
    let t = TransparentMaterial::new();
    assert_eq!(t.compute(0, true, true), SplitPlan { reflected: Some(1), refracted: Some(0) });
    assert_eq!(t.compute(4, false, true), SplitPlan { reflected: None, refracted: Some(4) });
    assert_eq!(t.compute(4, true, false), SplitPlan { reflected: Some(5), refracted: None });
    assert_eq!(t.compute(9, true, true), SplitPlan { reflected: Some(10), refracted: Some(9) });
    assert_eq!(t.compute(10, true, true), SplitPlan { reflected: None, refracted: None });
}

#[test]
fn internal_ray_of_a_transparent_object() {
    let t = TransparentMaterial::new();
    assert_eq!(
        t.calc_internal_ray(true, 2, true, true),
        InternalPlan::Split(SplitPlan { reflected: Some(3), refracted: Some(3) })
    );
    assert_eq!(
        t.calc_internal_ray(true, 2, false, true),
        InternalPlan::Split(SplitPlan { reflected: None, refracted: Some(3) })
    );
    assert_eq!(
        t.calc_internal_ray(true, 10, true, true),
        InternalPlan::Split(SplitPlan { reflected: None, refracted: None })
    );
    // Without an exit the ray escapes, guards or not.
    assert_eq!(
        t.calc_internal_ray(false, 10, false, false),
        InternalPlan::Escape { recurse_depth: 11 }
    );
    assert_eq!(t.calc_internal_ray(false, 0, true, true), InternalPlan::Escape { recurse_depth: 1 });
}

#[test]
fn photon_at_a_transparent_surface_from_outside() {
    let t = TransparentMaterial::new();
    assert_eq!(
        t.compute_photon(1, true),
        PhotonStep::Scene { branch: Branch::Reflected, recurse_depth: 2 }
    );
    assert_eq!(
        t.compute_photon(1, false),
        PhotonStep::Inside { branch: Branch::Refracted, recurse_depth: 2 }
    );
    assert_eq!(
        t.compute_caustic_ray(1, true),
        PhotonStep::Caustic { branch: Branch::Reflected, recurse_depth: 1 }
    );
    assert_eq!(
        t.compute_caustic_ray(1, false),
        PhotonStep::Inside { branch: Branch::Refracted, recurse_depth: 2 }
    );
}

#[test]
fn photon_at_a_transparent_surface_from_inside() {
    let t = TransparentMaterial::new();
    assert_eq!(
        t.calc_photon_internal(3, true, false, true),
        PhotonStep::Inside { branch: Branch::Reflected, recurse_depth: 4 }
    );
    assert_eq!(
        t.calc_photon_internal(3, true, true, true),
        PhotonStep::Inside { branch: Branch::Reflected, recurse_depth: 4 }
    );
    assert_eq!(
        t.calc_photon_internal(3, true, false, false),
        PhotonStep::Scene { branch: Branch::Refracted, recurse_depth: 4 }
    );
    assert_eq!(
        t.calc_photon_internal(3, true, true, false),
        PhotonStep::Caustic { branch: Branch::Refracted, recurse_depth: 3 }
    );
}

#[test]
fn photon_beyond_the_depth_limit_is_lost() {
    let t = TransparentMaterial::new();
    assert_eq!(
        t.calc_photon_internal(6, true, false, true),
        PhotonStep::Inside { branch: Branch::Reflected, recurse_depth: 7 }
    );
    for inside in [false, true] {
        for caustic in [false, true] {
            for reflected in [false, true] {
                assert_eq!(t.calc_photon_internal(7, inside, caustic, reflected), PhotonStep::Stop);
                assert_eq!(
                    t.calc_photon_internal(usize::MAX, inside, caustic, reflected),
                    PhotonStep::Stop
                );
            }
        }
    }
}

#[test]
fn photon_trapped_inside_is_lost_after_the_depth_limit() {
    // Total internal reflection for ever: every step stays inside.
    let t = TransparentMaterial::new();
    let mut level = 0;
    let mut steps = 0;
    loop {
        match t.calc_photon_internal(level, true, false, true) {
            PhotonStep::Inside { recurse_depth, .. } => {
                level = recurse_depth;
                steps += 1;
            }
            PhotonStep::Stop => break,
            _ => unreachable!(),
        }
    }
    assert_eq!(steps, MAX_PHOTON_RECURSE_DEPTH + 1);
}

#[test]
fn internal_exit_is_the_nearest_exit_of_the_object() {
    let t = TransparentMaterial::new();
    let hits = vec![
        Hit::new(0, -5, false, 1, 1),
        Hit::new(1, 0, false, 1, 1),
        Hit::new(2, 10, true, 1, 1),
        Hit::new(3, 0x4000_0000_0000_0000, false, 2, 1),
        Hit::new(4, 0x3EB0_C6F7_A0B5_ED8D, false, 1, 1),
        Hit::new(5, 0x3EB0_C6F7_A0B5_ED8E, false, 1, 1),
        Hit::new(6, 0x3EB0_C6F7_A0B5_ED90, false, 1, 1),
    ];
    assert_eq!(t.find_internal_hit(&hits, 1).map(|h| h.get_tag()), Some(5));
    assert_eq!(t.find_internal_hit(&hits, 2).map(|h| h.get_tag()), Some(3));
    assert_eq!(t.find_internal_hit(&hits, 3), None);
    assert_eq!(t.find_internal_hit(&Vec::new(), 1), None);
}

#[test]
fn internal_exit_is_found_in_a_list_out_of_order() {
    let t = TransparentMaterial::new();
    let far = 0x4000_0000_0000_0000;
    let hits = vec![
        Hit::new(0, far + 9, false, 0, 1),
        Hit::new(1, far + 3, false, 0, 1),
        Hit::new(2, far + 3, false, 0, 2),
        Hit::new(3, far + 1, true, 0, 1),
    ];
    assert_eq!(t.find_internal_hit(&hits, 0).map(|h| h.get_tag()), Some(1));
}
