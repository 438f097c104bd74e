use graphics_lib::csg::CSGType;
use graphics_lib::hit::Hit;
use graphics_lib::material::{
    AmbientMaterial, CompoundMaterial, DiffuseMaterial, Material, TransparentMaterial,
};
use graphics_lib::object::{
    Cube, Extent, Object, Plane, Primitive, Quadratic, Shape, Solid, Sphere, CSG, CUBE_TRIANGLES,
};

fn mesh(handle: usize, triangles: usize, material: usize) -> Solid {
    Solid { shape: Shape::PolyMesh, handle, parts: triangles, material, csg_index: 0 }
}

fn csg(t: CSGType, l: Object, r: Object) -> Object {
    Object::CSG(CSG::new(t, l, r))
}

// A sphere less the union of a cube and a plane.
fn carved() -> Object {
    csg(
        CSGType::Subtract,
        Sphere::new(10, 0).object(),
        csg(
            CSGType::Union,
            Cube::new(11, 1).object(),
            Plane::new(12, 2).object(),
        ),
    )
}

fn chain(levels: u32) -> Object {
    let mut o = Sphere::new(0, 0).object();
    for _ in 0..levels {
        o = csg(CSGType::Union, o, Sphere::new(0, 0).object());
    }
    o
}

fn csg_indices(o: &Object, out: &mut Vec<usize>) {
    match o {
        Object::Solid(s) => out.push(s.csg_index),
        Object::CSG(c) => {
            out.push(c.csg_index);
            csg_indices(&c.left, out);
            csg_indices(&c.right, out);
        }
    }
}

#[test]
fn solids_are_made_with_their_parts() {
    assert_eq!(Sphere::new(3, 4), Sphere { handle: 3, material: 4, csg_index: 0 });
    assert_eq!(Plane::new(3, 4), Plane { handle: 3, material: 4, csg_index: 0 });
    assert_eq!(Quadratic::new(3, 4), Quadratic { handle: 3, material: 4, csg_index: 0 });
    assert_eq!(Cube::new(3, 4), Cube { handle: 3, material: 4, csg_index: 0 });
    let s = Sphere::new(3, 4).to_solid();
    assert_eq!((s.shape, s.handle, s.parts, s.material, s.csg_index), (Shape::Sphere, 3, 1, 4, 0));
    assert_eq!(Plane::new(1, 2).to_solid().shape, Shape::Plane);
    assert_eq!(Plane::new(1, 2).to_solid().parts, 1);
    assert_eq!(Quadratic::new(1, 2).to_solid().shape, Shape::Quadratic);
    assert_eq!(Cube::new(1, 2).to_solid().shape, Shape::Cube);
    assert_eq!(Cube::new(1, 2).to_solid().parts, 12);
    assert_eq!(CUBE_TRIANGLES, 12);
    let m = mesh(5, 77, 6);
    assert_eq!((m.shape, m.parts, m.get_material()), (Shape::PolyMesh, 77, 6));
    assert_eq!(Sphere::new(3, 4).object(), Object::Solid(s));
}

#[test]
fn named_solids_answer_for_themselves() {
    let hit = Hit::new(0, 1, true, 0, 9);
    let table = table();
    let mut s = Sphere::new(3, 1);
    s.set_csg_index(6);
    assert_eq!(s, Sphere { handle: 3, material: 1, csg_index: 6 });
    assert_eq!(s.get_material(&hit), 1);
    assert_eq!(s.get_caustic_bounds(), Extent::Bounded);
    assert!(s.needs_caustic(&table));
    assert_eq!(
        s.primitives(2),
        vec![Primitive { handle: 3, part: 0, obj_index: 2, csg_index: 6, node_index: 0 }]
    );
    assert_eq!(s.filter_hits(vec![hit], 0), vec![hit]);

    let mut p = Plane::new(4, 0);
    p.set_csg_index(7);
    assert_eq!(p.get_material(&hit), 0);
    assert_eq!(p.get_caustic_bounds(), Extent::Unbounded);
    assert!(!p.needs_caustic(&table));
    assert_eq!(p.primitives(1).len(), 1);
    assert_eq!(p.primitives(1)[0].csg_index, 7);
    assert_eq!(p.filter_hits(vec![hit, hit], 5), vec![hit, hit]);

    let mut q = Quadratic::new(5, 2);
    q.set_csg_index(2);
    assert_eq!(q.get_material(&hit), 2);
    assert_eq!(q.get_caustic_bounds(), Extent::Unbounded);
    assert!(q.needs_caustic(&table));
    assert_eq!(q.primitives(0).len(), 1);
    assert!(q.filter_hits(Vec::new(), 0).is_empty());

    let mut c = Cube::new(6, 3);
    c.set_csg_index(3);
    assert_eq!(c.get_material(&hit), 3);
    assert_eq!(c.get_caustic_bounds(), Extent::Bounded);
    assert!(!c.needs_caustic(&table));
    let parts: Vec<usize> = c.primitives(8).iter().map(|p| p.part).collect();
    assert_eq!(parts, (0..12).collect::<Vec<usize>>());
    assert!(c.primitives(8).iter().all(|p| p.csg_index == 3 && p.obj_index == 8 && p.handle == 6));
    assert_eq!(c.filter_hits(vec![hit], 8), vec![hit]);
}

#[test]
fn new_composite_is_not_numbered() {
    let c = CSG::new(
        CSGType::Intersection,
        Sphere::new(0, 1).object(),
        Plane::new(1, 2).object(),
    );
    assert_eq!(c.csg_index, 0);
    assert_eq!(c.csg_type, CSGType::Intersection);
    assert_eq!(*c.left, Sphere::new(0, 1).object());
    assert_eq!(*c.right, Plane::new(1, 2).object());
}

#[test]
fn numbering_from_one_follows_the_tree() {
    let mut o = carved();
    assert!(o.index_fits(1));
    o.set_csg_index(1);
    let mut found = Vec::new();
    csg_indices(&o, &mut found);
    assert_eq!(found, vec![1, 2, 3, 6, 7]);
}

#[test]
fn numbering_a_solid_sets_its_number() {
    let mut o = Sphere::new(0, 0).object();
    o.set_csg_index(1);
    assert_eq!(o, Sphere { handle: 0, material: 0, csg_index: 1 }.object());
}

#[test]
fn numbering_from_another_root() {
    let mut o = carved();
    o.set_csg_index(5);
    let mut found = Vec::new();
    csg_indices(&o, &mut found);
    assert_eq!(found, vec![5, 10, 11, 22, 23]);
}

#[test]
fn numbering_fits_up_to_the_width_of_the_index_type() {
    assert!(chain(usize::BITS - 1).index_fits(1));
    assert!(!chain(usize::BITS).index_fits(1));
    assert!(Sphere::new(0, 0).object().index_fits(usize::MAX));
    assert!(!chain(1).index_fits(usize::MAX));
    assert!(chain(1).index_fits((usize::MAX - 1) / 2));
    assert!(!chain(1).index_fits((usize::MAX - 1) / 2 + 1));
}

#[test]
fn deepest_numbering_that_fits_is_carried_out() {
    let mut o = chain(usize::BITS - 1);
    o.set_csg_index(1);
    let mut leftmost = &o;
    while let Object::CSG(c) = leftmost {
        leftmost = &c.left;
    }
    match leftmost {
        Object::Solid(s) => assert_eq!(s.csg_index, 1usize << (usize::BITS - 1)),
        Object::CSG(_) => unreachable!(),
    }
}

#[test]
fn material_of_a_crossing_is_that_of_its_leaf() {
    let mut o = carved();
    o.set_csg_index(1);
    assert_eq!(o.get_material(&Hit::new(0, 1, true, 0, 2)), 0);
    assert_eq!(o.get_material(&Hit::new(0, 1, true, 0, 6)), 1);
    assert_eq!(o.get_material(&Hit::new(0, 1, true, 0, 7)), 2);
}

#[test]
fn material_of_a_crossing_from_nowhere_is_that_of_the_left_side() {
    let mut o = carved();
    o.set_csg_index(1);
    assert_eq!(o.get_material(&Hit::new(0, 1, true, 0, 1)), 0);
    assert_eq!(o.get_material(&Hit::new(0, 1, true, 0, 0)), 0);
    // 3 is the inner composite itself: below the root on the right, below
    // itself on neither side.
    assert_eq!(o.get_material(&Hit::new(0, 1, true, 0, 3)), 1);
}

#[test]
fn primitives_come_left_to_right_with_their_leaf_numbers() {
    let mut o = carved();
    o.set_csg_index(1);
    let list = o.primitives(5);
    assert_eq!(list.len(), 14);
    assert_eq!(
        list[0],
        Primitive { handle: 10, part: 0, obj_index: 5, csg_index: 2, node_index: 0 }
    );
    for k in 0..12 {
        assert_eq!(
            list[1 + k],
            Primitive { handle: 11, part: k, obj_index: 5, csg_index: 6, node_index: 0 }
        );
    }
    assert_eq!(
        list[13],
        Primitive { handle: 12, part: 0, obj_index: 5, csg_index: 7, node_index: 0 }
    );
}

#[test]
fn mesh_without_triangles_has_no_primitives() {
    assert!(Object::Solid(mesh(0, 0, 0)).primitives(0).is_empty());
    assert_eq!(mesh(0, 3, 0).primitives(9).len(), 3);
}

#[test]
fn primitive_keeps_the_node_index_of_the_acceleration_structure() {
    let mut p = Sphere::new(4, 0).to_solid().primitives(2)[0];
    assert_eq!(p.bh_node_index(), 0);
    p.set_bh_node_index(17);
    assert_eq!(p.bh_node_index(), 17);
    assert_eq!(p.get_object(), 2);
    assert_eq!(p.get_csg_index(), 0);
    assert_eq!(p.handle, 4);
}

#[test]
fn primitive_makes_crossings_of_its_leaf() {
    let mut o = carved();
    o.set_csg_index(1);
    let p = o.primitives(3)[13];
    assert_eq!(p.hit(8, -4, false), Hit::new(8, -4, false, 3, 7));
}

#[test]
fn solid_leaves_the_list_as_it_is() {
    let hits = vec![Hit::new(0, 1, true, 0, 1), Hit::new(1, 2, false, 0, 1)];
    let o = Sphere::new(0, 0).object();
    assert_eq!(o.filter_hits(hits.clone(), 0), hits);
}

#[test]
fn nested_composites_rewrite_from_the_leaves_up() {
    // A or (B and C), numbered 1; A is leaf 2, B leaf 6, C leaf 7.
    let mut o = csg(
        CSGType::Union,
        Sphere::new(0, 0).object(),
        csg(
            CSGType::Intersection,
            Sphere::new(1, 0).object(),
            Sphere::new(2, 0).object(),
        ),
    );
    o.set_csg_index(1);
    let hits = vec![
        Hit::new(0, 1, true, 0, 2),
        Hit::new(1, 2, false, 0, 2),
        Hit::new(2, 3, true, 0, 6),
        Hit::new(3, 4, true, 0, 7),
        Hit::new(4, 6, false, 0, 6),
        Hit::new(5, 8, false, 0, 7),
    ];
    let out = o.filter_hits(hits, 0);
    let tags: Vec<usize> = out.iter().map(|h| h.get_tag()).collect();
    assert_eq!(tags, vec![0, 1, 3, 4, 5]);
    assert!(out.iter().all(|h| !h.is_reversed()));
}

#[test]
fn composite_of_another_object_leaves_the_list_alone() {
    let mut o = carved();
    o.set_csg_index(1);
    let hits = vec![
        Hit::new(0, 1, true, 0, 6),
        Hit::new(1, 2, true, 0, 2),
        Hit::new(2, 3, false, 0, 6),
    ];
    assert_eq!(o.filter_hits(hits.clone(), 1), hits);
}

#[test]
fn subtract_inside_a_tree_reverses_the_carving_surface() {
    let mut o = carved();
    o.set_csg_index(1);
    // sphere 1..9, cube 3..5, plane not met.
    let hits = vec![
        Hit::new(0, 1, true, 4, 2),
        Hit::new(1, 3, true, 4, 6),
        Hit::new(2, 5, false, 4, 6),
        Hit::new(3, 9, false, 4, 2),
    ];
    let out = o.filter_hits(hits, 4);
    let seen: Vec<(usize, bool, bool)> =
        out.iter().map(|h| (h.get_tag(), h.get_dir(), h.is_reversed())).collect();
    assert_eq!(seen, vec![(0, true, false), (1, false, true), (2, true, true), (3, false, false)]);
}

#[test]
fn extent_of_solids() {
    assert_eq!(Sphere::new(0, 0).to_solid().get_caustic_bounds(), Extent::Bounded);
    assert_eq!(Cube::new(0, 0).to_solid().get_caustic_bounds(), Extent::Bounded);
    assert_eq!(Plane::new(0, 0).to_solid().get_caustic_bounds(), Extent::Unbounded);
    assert_eq!(Quadratic::new(0, 0).to_solid().get_caustic_bounds(), Extent::Unbounded);
    assert_eq!(mesh(0, 1, 0).get_caustic_bounds(), Extent::Bounded);
    assert_eq!(mesh(0, 0, 0).get_caustic_bounds(), Extent::Empty);
}

#[test]
fn extent_of_composites() {
    let sphere = || Sphere::new(0, 0).object();
    let plane = || Plane::new(0, 0).object();
    let quadratic = || Quadratic::new(0, 0).object();
    let nothing = || Object::Solid(mesh(0, 0, 0));
    let e = |t, l, r| csg(t, l, r).get_caustic_bounds();
    assert_eq!(e(CSGType::Union, sphere(), plane()), Extent::Unbounded);
    assert_eq!(e(CSGType::Union, sphere(), sphere()), Extent::Bounded);
    assert_eq!(e(CSGType::Union, nothing(), sphere()), Extent::Bounded);
    assert_eq!(e(CSGType::Union, nothing(), nothing()), Extent::Empty);
    assert_eq!(e(CSGType::Intersection, plane(), sphere()), Extent::Bounded);
    assert_eq!(e(CSGType::Intersection, plane(), quadratic()), Extent::Unbounded);
    assert_eq!(e(CSGType::Intersection, nothing(), plane()), Extent::Empty);
    assert_eq!(e(CSGType::Intersection, sphere(), nothing()), Extent::Empty);
    assert_eq!(e(CSGType::Subtract, sphere(), plane()), Extent::Bounded);
    assert_eq!(e(CSGType::Subtract, plane(), sphere()), Extent::Unbounded);
    assert_eq!(carved().get_caustic_bounds(), Extent::Bounded);
}

fn table() -> Vec<Material> {
    vec![
        Material::Diffuse(DiffuseMaterial::new()),
        Material::Transparent(TransparentMaterial::new()),
        Material::Compound(CompoundMaterial::new_transparent_material()),
        Material::Ambient(AmbientMaterial::new()),
    ]
}

#[test]
fn solid_needs_caustics_if_its_material_does() {
    let t = table();
    assert!(!Sphere::new(0, 0).object().needs_caustic(&t));
    assert!(Sphere::new(0, 1).object().needs_caustic(&t));
    assert!(Sphere::new(0, 2).object().needs_caustic(&t));
    assert!(!Sphere::new(0, 3).object().needs_caustic(&t));
}

#[test]
fn difference_needs_caustics_by_its_left_side_only() {
    let t = table();
    let glass = || Sphere::new(0, 1).object();
    let matte = || Sphere::new(0, 0).object();
    assert!(!csg(CSGType::Subtract, matte(), glass()).needs_caustic(&t));
    assert!(csg(CSGType::Subtract, glass(), matte()).needs_caustic(&t));
    assert!(csg(CSGType::Union, matte(), glass()).needs_caustic(&t));
    assert!(csg(CSGType::Intersection, matte(), glass()).needs_caustic(&t));
    assert!(csg(CSGType::Intersection, glass(), matte()).needs_caustic(&t));
    assert!(!csg(CSGType::Union, matte(), matte()).needs_caustic(&t));
}

#[test]
fn material_indices_are_checked_against_the_table() {
    assert!(carved().has_materials_within(3));
    assert!(!carved().has_materials_within(2));
    assert!(!Sphere::new(0, 0).object().has_materials_within(0));
}
