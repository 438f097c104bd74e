//! Objects of a scene: solids and their boolean compositions, as trees.
//!
//! The geometry of a solid stays with the caller, who finds it again by the
//! solid's handle. The library keeps what the rendering logic reads: which
//! material a solid has, how many primitives it is made of, whether it can
//! be boxed in, and its place in the tree of a composite.

use vstd::prelude::*;
use crate::csg::{filter_node, filtered, is_node_left, node_side, CSGType};
use crate::hit::Hit;
use crate::material::Material;

verus! {

/// The kinds of solid.
#[derive(Clone, Copy, Debug, PartialEq, Eq, Structural)]
pub enum Shape {
    Sphere,
    Plane,
    Quadratic,
    Cube,
    PolyMesh,
}

/// How far the bounding box of an object reaches.
#[derive(Clone, Copy, Debug, PartialEq, Eq, Structural)]
pub enum Extent {
    /// A finite box.
    Bounded,
    /// All of space: the object cannot be boxed in.
    Unbounded,
    /// The box of nothing: lower corner at plus infinity, upper at minus
    /// infinity.
    Empty,
}

/// Number of triangles that make up a cube.
pub const CUBE_TRIANGLES: usize = 12;

/// A solid: a leaf of an object tree.
#[derive(Clone, Copy, Debug, PartialEq, Eq, Structural)]
pub struct Solid {
    pub shape: Shape,
    /// The caller's handle for the geometry.
    pub handle: usize,
    /// Number of primitives the solid is made of.
    pub parts: usize,
    /// Index of the material in the scene's table.
    pub material: usize,
    /// Index of this leaf in the tree of its composite.
    pub csg_index: usize,
}

/// One primitive of a solid, as the acceleration structure indexes it.
#[derive(Clone, Copy, Debug, PartialEq, Eq, Structural)]
pub struct Primitive {
    /// Handle of the solid's geometry.
    pub handle: usize,
    /// Which of the solid's primitives this is.
    pub part: usize,
    /// Index of the owning object in the scene.
    pub obj_index: usize,
    /// Index of the owning leaf in the tree of its composite.
    pub csg_index: usize,
    /// Slot for the acceleration structure's node index.
    pub node_index: usize,
}

/// A boolean composition of two objects.
#[derive(Debug, PartialEq, Eq)]
pub struct CSG {
    pub csg_type: CSGType,
    pub left: Box<Object>,
    pub right: Box<Object>,
    pub csg_index: usize,
}

/// An object of a scene.
#[derive(Debug, PartialEq, Eq)]
pub enum Object {
    Solid(Solid),
    CSG(CSG),
}

/// The bounding box of two boxes combined as the composition combines them:
/// a union takes the smaller lower and the larger upper corner, an
/// intersection the larger lower and the smaller upper one, a difference
/// keeps the box of its left side.
pub open spec fn combined_extent(csg_type: CSGType, left: Extent, right: Extent) -> Extent {
    match csg_type {
        CSGType::Union => if left == Extent::Unbounded || right == Extent::Unbounded {
            Extent::Unbounded
        } else if left == Extent::Bounded || right == Extent::Bounded {
            Extent::Bounded
        } else {
            Extent::Empty
        },
        CSGType::Intersection => if left == Extent::Empty || right == Extent::Empty {
            Extent::Empty
        } else if left == Extent::Bounded || right == Extent::Bounded {
            Extent::Bounded
        } else {
            Extent::Unbounded
        },
        CSGType::Subtract => left,
    }
}

impl Primitive {
    pub fn get_object(&self) -> (i: usize)
        ensures
            i == self.obj_index,
    {
        self.obj_index
    }

    pub fn get_csg_index(&self) -> (i: usize)
        ensures
            i == self.csg_index,
    {
        self.csg_index
    }

    pub fn set_bh_node_index(&mut self, n: usize)
        ensures
            *final(self) == (Primitive { node_index: n, ..*old(self) }),
    {
        self.node_index = n;
    }

    pub fn bh_node_index(&self) -> (n: usize)
        ensures
            n == self.node_index,
    {
        self.node_index
    }

    /// The crossing of this primitive that lies at the given depth.
    pub fn hit(&self, tag: usize, depth: i64, correct_dir: bool) -> (h: Hit)
        ensures
            h == (Hit {
                tag,
                depth,
                obj_index: self.obj_index,
                correct_dir,
                csg_index: self.csg_index,
                reversed: false,
            }),
    {
        Hit::new(tag, depth, correct_dir, self.obj_index, self.csg_index)
    }
}

impl Solid {
    /// The primitives of the solid, in order, for the object at `obj_index`.
    pub open spec fn primitive_seq(self, obj_index: usize) -> Seq<Primitive> {
        Seq::new(
            self.parts as nat,
            |k: int|
                Primitive {
                    handle: self.handle,
                    part: k as usize,
                    obj_index,
                    csg_index: self.csg_index,
                    node_index: 0,
                },
        )
    }

    /// The reach of the solid's bounding box: spheres, cubes and meshes
    /// with at least one triangle are bounded, planes and quadratic surfaces
    /// are not, and a mesh without triangles has the box of nothing.
    pub open spec fn extent(self) -> Extent {
        match self.shape {
            Shape::Sphere | Shape::Cube => Extent::Bounded,
            Shape::Plane | Shape::Quadratic => Extent::Unbounded,
            Shape::PolyMesh => if self.parts == 0 {
                Extent::Empty
            } else {
                Extent::Bounded
            },
        }
    }

    pub fn get_material(&self) -> (m: usize)
        ensures
            m == self.material,
    {
        self.material
    }

    pub fn set_csg_index(&mut self, csg_index: usize)
        ensures
            *final(self) == (Solid { csg_index, ..*old(self) }),
    {
        self.csg_index = csg_index;
    }

    /// Lists the primitives of the solid for the object at `obj_index`.
    pub fn primitives(&self, obj_index: usize) -> (list: Vec<Primitive>)
        ensures
            list@ == self.primitive_seq(obj_index),
    {
        let mut list: Vec<Primitive> = Vec::new();
        let mut k: usize = 0;
        while k < self.parts
            invariant
                k <= self.parts,
                list@.len() == k,
                forall|j: int| 0 <= j < k ==> list@[j] == self.primitive_seq(obj_index)[j],
            decreases self.parts - k,
        {
            list.push(
                Primitive {
                    handle: self.handle,
                    part: k,
                    obj_index,
                    csg_index: self.csg_index,
                    node_index: 0,
                },
            );
            k += 1;
        }
        list
    }

    /// Tells how far the bounding box of the solid reaches.
    pub fn get_caustic_bounds(&self) -> (e: Extent)
        ensures
            e == self.extent(),
    {
        match self.shape {
            Shape::Sphere => Extent::Bounded,
            Shape::Cube => Extent::Bounded,
            Shape::Plane => Extent::Unbounded,
            Shape::Quadratic => Extent::Unbounded,
            Shape::PolyMesh => {
                if self.parts == 0 {
                    Extent::Empty
                } else {
                    Extent::Bounded
                }
            },
        }
    }
}

impl Object {
    /// The tree with its nodes numbered from `csg_index` at the root down:
    /// the children of node `n` get `2n` and `2n + 1`.
    pub open spec fn indexed(self, csg_index: nat) -> Object
        decreases self,
    {
        match self {
            Object::Solid(s) => Object::Solid(Solid { csg_index: csg_index as usize, ..s }),
            Object::CSG(c) => Object::CSG(
                CSG {
                    csg_type: c.csg_type,
                    left: Box::new(c.left.indexed(2 * csg_index)),
                    right: Box::new(c.right.indexed(2 * csg_index + 1)),
                    csg_index: csg_index as usize,
                },
            ),
        }
    }

    /// Whether every number that `indexed(csg_index)` hands out fits the
    /// machine's index type.
    pub open spec fn fits(self, csg_index: nat) -> bool
        decreases self,
    {
        match self {
            Object::Solid(_) => csg_index <= usize::MAX,
            Object::CSG(c) => csg_index <= usize::MAX && c.left.fits(2 * csg_index)
                && c.right.fits(2 * csg_index + 1),
        }
    }

    /// The material of the leaf numbered `leaf`: a composite asks the side
    /// under which the leaf lies, and its left side where it lies under
    /// neither.
    pub open spec fn material_for(self, leaf: usize) -> usize
        decreases self,
    {
        match self {
            Object::Solid(s) => s.material,
            Object::CSG(c) => if node_side(c.csg_index as nat, leaf as nat) == Some(false) {
                c.right.material_for(leaf)
            } else {
                c.left.material_for(leaf)
            },
        }
    }

    /// The primitives of the object, left to right.
    pub open spec fn primitive_seq(self, obj_index: usize) -> Seq<Primitive>
        decreases self,
    {
        match self {
            Object::Solid(s) => s.primitive_seq(obj_index),
            Object::CSG(c) => c.left.primitive_seq(obj_index) + c.right.primitive_seq(obj_index),
        }
    }

    /// The list of crossings after the object has rewritten it: a solid
    /// leaves it as it is, a composite lets its left and then its right side
    /// rewrite it and then applies its own composition.
    pub open spec fn rewritten(self, hits: Seq<Hit>, index: usize) -> Seq<Hit>
        decreases self,
    {
        match self {
            Object::Solid(_) => hits,
            Object::CSG(c) => {
                let below = c.right.rewritten(c.left.rewritten(hits, index), index);
                filtered(c.csg_type, c.csg_index, index, below, below.len())
            },
        }
    }

    /// Whether every material index in the object is below `count`.
    pub open spec fn materials_within(self, count: nat) -> bool
        decreases self,
    {
        match self {
            Object::Solid(s) => s.material < count,
            Object::CSG(c) => c.left.materials_within(count) && c.right.materials_within(count),
        }
    }

    /// Whether the object asks for caustic photons: a solid does if its
    /// material does, a difference if its left side does, a union or an
    /// intersection if either side does.
    pub open spec fn wants_caustic(self, materials: Seq<Material>) -> bool
        decreases self,
    {
        match self {
            Object::Solid(s) => materials[s.material as int].wants_caustic(),
            Object::CSG(c) => match c.csg_type {
                CSGType::Subtract => c.left.wants_caustic(materials),
                _ => c.left.wants_caustic(materials) || c.right.wants_caustic(materials),
            },
        }
    }

    /// How far the bounding box of the object reaches.
    pub open spec fn extent(self) -> Extent
        decreases self,
    {
        match self {
            Object::Solid(s) => s.extent(),
            Object::CSG(c) => combined_extent(c.csg_type, c.left.extent(), c.right.extent()),
        }
    }

    /// The numbers of the leaves of the object.
    pub open spec fn leaves(self) -> Set<nat>
        decreases self,
    {
        match self {
            Object::Solid(s) => set![s.csg_index as nat],
            Object::CSG(c) => c.left.leaves().union(c.right.leaves()),
        }
    }

    /// Tells whether the numbering from `csg_index` fits the index type.
    pub fn index_fits(&self, csg_index: usize) -> (b: bool)
        ensures
            b == self.fits(csg_index as nat),
        decreases self,
    {
        match self {
            Object::Solid(_) => true,
            Object::CSG(c) => {
                proof {
                    if c.right.fits(2 * csg_index as nat + 1) {
                        fits_within_index_type(*c.right, 2 * csg_index as nat + 1);
                    }
                }
                if csg_index > (usize::MAX - 1) / 2 {
                    false
                } else {
                    c.left.index_fits(csg_index * 2) && c.right.index_fits(csg_index * 2 + 1)
                }
            },
        }
    }

    /// Tells whether every material index in the object is below `count`.
    pub fn has_materials_within(&self, count: usize) -> (b: bool)
        ensures
            b == self.materials_within(count as nat),
        decreases self,
    {
        match self {
            Object::Solid(s) => s.material < count,
            Object::CSG(c) => c.left.has_materials_within(count) && c.right.has_materials_within(
                count,
            ),
        }
    }

    /// Index of the material that a crossing of this object is shaded with.
    pub fn get_material(&self, hit: &Hit) -> (m: usize)
        ensures
            m == self.material_for(hit.csg_index),
        decreases self,
    {
        match self {
            Object::Solid(s) => s.get_material(),
            Object::CSG(c) => c.get_material(hit),
        }
    }

    /// Numbers the tree from `csg_index` at the root down.
    pub fn set_csg_index(&mut self, csg_index: usize)
        requires
            old(self).fits(csg_index as nat),
        ensures
            *final(self) == old(self).indexed(csg_index as nat),
        decreases *old(self),
    {
        match self {
            Object::Solid(s) => {
                s.set_csg_index(csg_index);
            },
            Object::CSG(c) => {
                c.set_csg_index(csg_index);
            },
        }
    }

    /// Lists the primitives that the object contributes to the scene, for
    /// the object at `obj_index`.
    pub fn primitives(&self, obj_index: usize) -> (list: Vec<Primitive>)
        ensures
            list@ == self.primitive_seq(obj_index),
        decreases self,
    {
        match self {
            Object::Solid(s) => s.primitives(obj_index),
            Object::CSG(c) => c.primitives(obj_index),
        }
    }

    /// Lets the object rewrite the ordered list of all crossings of a ray;
    /// `index` is the object's own index in the scene.
    pub fn filter_hits(&self, hits: Vec<Hit>, index: usize) -> (out: Vec<Hit>)
        ensures
            out@ == self.rewritten(hits@, index),
        decreases self,
    {
        match self {
            Object::Solid(_) => hits,
            Object::CSG(c) => c.filter_hits(hits, index),
        }
    }

    /// Tells how far the bounding box reaches within which caustic rays are
    /// aimed at the object.
    pub fn get_caustic_bounds(&self) -> (e: Extent)
        ensures
            e == self.extent(),
        decreases self,
    {
        match self {
            Object::Solid(s) => s.get_caustic_bounds(),
            Object::CSG(c) => c.get_caustic_bounds(),
        }
    }

    /// Tells whether the object asks for caustic photons.
    pub fn needs_caustic(&self, materials: &Vec<Material>) -> (b: bool)
        requires
            self.materials_within(materials@.len()),
        ensures
            b == self.wants_caustic(materials@),
        decreases self,
    {
        match self {
            Object::Solid(s) => materials[s.material].needs_caustic(),
            Object::CSG(c) => c.needs_caustic(materials),
        }
    }
}

/// A sphere.
#[derive(Clone, Copy, Debug, PartialEq, Eq, Structural)]
pub struct Sphere {
    /// The caller's handle for the geometry.
    pub handle: usize,
    /// Index of the material in the scene's table.
    pub material: usize,
    /// Index of this leaf in the tree of its composite.
    pub csg_index: usize,
}

impl Sphere {
    /// The sphere as a leaf of an object tree: one primitive.
    pub open spec fn solid(self) -> Solid {
        Solid {
            shape: Shape::Sphere,
            handle: self.handle,
            parts: 1,
            material: self.material,
            csg_index: self.csg_index,
        }
    }

    /// A sphere with the given material. It is numbered when the
    /// scene is built.
    pub fn new(handle: usize, material: usize) -> (s: Sphere)
        ensures
            s == (Sphere { handle, material, csg_index: 0 }),
    {
        Sphere { handle, material, csg_index: 0 }
    }

    /// Index of the material, whatever the crossing.
    pub fn get_material(&self, hit: &Hit) -> (m: usize)
        ensures
            m == self.material,
    {
        self.material
    }

    pub fn set_csg_index(&mut self, csg_index: usize)
        ensures
            *final(self) == (Sphere { csg_index, ..*old(self) }),
    {
        self.csg_index = csg_index;
    }

    /// The primitives of the sphere for the object at `obj_index`.
    pub fn primitives(&self, obj_index: usize) -> (list: Vec<Primitive>)
        ensures
            list@ == self.solid().primitive_seq(obj_index),
    {
        self.to_solid().primitives(obj_index)
    }

    /// A sphere leaves the list of crossings as it is.
    pub fn filter_hits(&self, hits: Vec<Hit>, index: usize) -> (out: Vec<Hit>)
        ensures
            out == hits,
    {
        hits
    }

    /// A sphere has a finite bounding box.
    pub fn get_caustic_bounds(&self) -> (e: Extent)
        ensures
            e == Extent::Bounded,
            e == self.solid().extent(),
    {
        Extent::Bounded
    }

    /// A sphere needs caustics if its material does.
    pub fn needs_caustic(&self, materials: &Vec<Material>) -> (b: bool)
        requires
            self.material < materials@.len(),
        ensures
            b == materials@[self.material as int].wants_caustic(),
    {
        materials[self.material].needs_caustic()
    }

    /// The sphere as a leaf of an object tree.
    pub fn to_solid(&self) -> (s: Solid)
        ensures
            s == self.solid(),
    {
        Solid {
            shape: Shape::Sphere,
            handle: self.handle,
            parts: 1,
            material: self.material,
            csg_index: self.csg_index,
        }
    }

    /// The sphere as an object of a scene.
    pub fn object(&self) -> (o: Object)
        ensures
            o == Object::Solid(self.solid()),
    {
        Object::Solid(self.to_solid())
    }
}

/// A plane, which bounds the half of space behind it.
#[derive(Clone, Copy, Debug, PartialEq, Eq, Structural)]
pub struct Plane {
    /// The caller's handle for the geometry.
    pub handle: usize,
    /// Index of the material in the scene's table.
    pub material: usize,
    /// Index of this leaf in the tree of its composite.
    pub csg_index: usize,
}

impl Plane {
    /// The plane as a leaf of an object tree: one primitive.
    pub open spec fn solid(self) -> Solid {
        Solid {
            shape: Shape::Plane,
            handle: self.handle,
            parts: 1,
            material: self.material,
            csg_index: self.csg_index,
        }
    }

    /// A plane with the given material. It is numbered when the
    /// scene is built.
    pub fn new(handle: usize, material: usize) -> (s: Plane)
        ensures
            s == (Plane { handle, material, csg_index: 0 }),
    {
        Plane { handle, material, csg_index: 0 }
    }

    /// Index of the material, whatever the crossing.
    pub fn get_material(&self, hit: &Hit) -> (m: usize)
        ensures
            m == self.material,
    {
        self.material
    }

    pub fn set_csg_index(&mut self, csg_index: usize)
        ensures
            *final(self) == (Plane { csg_index, ..*old(self) }),
    {
        self.csg_index = csg_index;
    }

    /// The primitives of the plane for the object at `obj_index`.
    pub fn primitives(&self, obj_index: usize) -> (list: Vec<Primitive>)
        ensures
            list@ == self.solid().primitive_seq(obj_index),
    {
        self.to_solid().primitives(obj_index)
    }

    /// A plane leaves the list of crossings as it is.
    pub fn filter_hits(&self, hits: Vec<Hit>, index: usize) -> (out: Vec<Hit>)
        ensures
            out == hits,
    {
        hits
    }

    /// A plane cannot be boxed in.
    pub fn get_caustic_bounds(&self) -> (e: Extent)
        ensures
            e == Extent::Unbounded,
            e == self.solid().extent(),
    {
        Extent::Unbounded
    }

    /// A plane needs caustics if its material does.
    pub fn needs_caustic(&self, materials: &Vec<Material>) -> (b: bool)
        requires
            self.material < materials@.len(),
        ensures
            b == materials@[self.material as int].wants_caustic(),
    {
        materials[self.material].needs_caustic()
    }

    /// The plane as a leaf of an object tree.
    pub fn to_solid(&self) -> (s: Solid)
        ensures
            s == self.solid(),
    {
        Solid {
            shape: Shape::Plane,
            handle: self.handle,
            parts: 1,
            material: self.material,
            csg_index: self.csg_index,
        }
    }

    /// The plane as an object of a scene.
    pub fn object(&self) -> (o: Object)
        ensures
            o == Object::Solid(self.solid()),
    {
        Object::Solid(self.to_solid())
    }
}

/// A quadratic surface.
#[derive(Clone, Copy, Debug, PartialEq, Eq, Structural)]
pub struct Quadratic {
    /// The caller's handle for the geometry.
    pub handle: usize,
    /// Index of the material in the scene's table.
    pub material: usize,
    /// Index of this leaf in the tree of its composite.
    pub csg_index: usize,
}

impl Quadratic {
    /// The quadratic surface as a leaf of an object tree: one primitive.
    pub open spec fn solid(self) -> Solid {
        Solid {
            shape: Shape::Quadratic,
            handle: self.handle,
            parts: 1,
            material: self.material,
            csg_index: self.csg_index,
        }
    }

    /// A quadratic surface with the given material. It is numbered when the
    /// scene is built.
    pub fn new(handle: usize, material: usize) -> (s: Quadratic)
        ensures
            s == (Quadratic { handle, material, csg_index: 0 }),
    {
        Quadratic { handle, material, csg_index: 0 }
    }

    /// Index of the material, whatever the crossing.
    pub fn get_material(&self, hit: &Hit) -> (m: usize)
        ensures
            m == self.material,
    {
        self.material
    }

    pub fn set_csg_index(&mut self, csg_index: usize)
        ensures
            *final(self) == (Quadratic { csg_index, ..*old(self) }),
    {
        self.csg_index = csg_index;
    }

    /// The primitives of the quadratic surface for the object at `obj_index`.
    pub fn primitives(&self, obj_index: usize) -> (list: Vec<Primitive>)
        ensures
            list@ == self.solid().primitive_seq(obj_index),
    {
        self.to_solid().primitives(obj_index)
    }

    /// A quadratic surface leaves the list of crossings as it is.
    pub fn filter_hits(&self, hits: Vec<Hit>, index: usize) -> (out: Vec<Hit>)
        ensures
            out == hits,
    {
        hits
    }

    /// A quadratic surface may reach for ever, so it counts as one that cannot
    /// be boxed in.
    pub fn get_caustic_bounds(&self) -> (e: Extent)
        ensures
            e == Extent::Unbounded,
            e == self.solid().extent(),
    {
        Extent::Unbounded
    }

    /// A quadratic surface needs caustics if its material does.
    pub fn needs_caustic(&self, materials: &Vec<Material>) -> (b: bool)
        requires
            self.material < materials@.len(),
        ensures
            b == materials@[self.material as int].wants_caustic(),
    {
        materials[self.material].needs_caustic()
    }

    /// The quadratic surface as a leaf of an object tree.
    pub fn to_solid(&self) -> (s: Solid)
        ensures
            s == self.solid(),
    {
        Solid {
            shape: Shape::Quadratic,
            handle: self.handle,
            parts: 1,
            material: self.material,
            csg_index: self.csg_index,
        }
    }

    /// The quadratic surface as an object of a scene.
    pub fn object(&self) -> (o: Object)
        ensures
            o == Object::Solid(self.solid()),
    {
        Object::Solid(self.to_solid())
    }
}

/// A cube.
#[derive(Clone, Copy, Debug, PartialEq, Eq, Structural)]
pub struct Cube {
    /// The caller's handle for the geometry.
    pub handle: usize,
    /// Index of the material in the scene's table.
    pub material: usize,
    /// Index of this leaf in the tree of its composite.
    pub csg_index: usize,
}

impl Cube {
    /// The cube as a leaf of an object tree: twelve triangles.
    pub open spec fn solid(self) -> Solid {
        Solid {
            shape: Shape::Cube,
            handle: self.handle,
            parts: CUBE_TRIANGLES,
            material: self.material,
            csg_index: self.csg_index,
        }
    }

    /// A cube with the given material. It is numbered when the
    /// scene is built.
    pub fn new(handle: usize, material: usize) -> (s: Cube)
        ensures
            s == (Cube { handle, material, csg_index: 0 }),
    {
        Cube { handle, material, csg_index: 0 }
    }

    /// Index of the material, whatever the crossing.
    pub fn get_material(&self, hit: &Hit) -> (m: usize)
        ensures
            m == self.material,
    {
        self.material
    }

    pub fn set_csg_index(&mut self, csg_index: usize)
        ensures
            *final(self) == (Cube { csg_index, ..*old(self) }),
    {
        self.csg_index = csg_index;
    }

    /// The primitives of the cube for the object at `obj_index`.
    pub fn primitives(&self, obj_index: usize) -> (list: Vec<Primitive>)
        ensures
            list@ == self.solid().primitive_seq(obj_index),
    {
        self.to_solid().primitives(obj_index)
    }

    /// A cube leaves the list of crossings as it is.
    pub fn filter_hits(&self, hits: Vec<Hit>, index: usize) -> (out: Vec<Hit>)
        ensures
            out == hits,
    {
        hits
    }

    /// A cube has a finite bounding box.
    pub fn get_caustic_bounds(&self) -> (e: Extent)
        ensures
            e == Extent::Bounded,
            e == self.solid().extent(),
    {
        Extent::Bounded
    }

    /// A cube needs caustics if its material does.
    pub fn needs_caustic(&self, materials: &Vec<Material>) -> (b: bool)
        requires
            self.material < materials@.len(),
        ensures
            b == materials@[self.material as int].wants_caustic(),
    {
        materials[self.material].needs_caustic()
    }

    /// The cube as a leaf of an object tree.
    pub fn to_solid(&self) -> (s: Solid)
        ensures
            s == self.solid(),
    {
        Solid {
            shape: Shape::Cube,
            handle: self.handle,
            parts: CUBE_TRIANGLES,
            material: self.material,
            csg_index: self.csg_index,
        }
    }

    /// The cube as an object of a scene.
    pub fn object(&self) -> (o: Object)
        ensures
            o == Object::Solid(self.solid()),
    {
        Object::Solid(self.to_solid())
    }
}

/// A numbering that fits starts with a number that fits.
pub proof fn fits_within_index_type(object: Object, csg_index: nat)
    requires
        object.fits(csg_index),
    ensures
        csg_index <= usize::MAX,
{
}

impl CSG {
    /// The composition of two objects. Its nodes are numbered later, when
    /// the scene is built.
    pub fn new(csg_type: CSGType, left: Object, right: Object) -> (c: CSG)
        ensures
            c.csg_type == csg_type,
            *c.left == left,
            *c.right == right,
            c.csg_index == 0,
    {
        CSG { csg_type, left: Box::new(left), right: Box::new(right), csg_index: 0 }
    }

    /// Index of the material of the child that the crossing came from.
    pub fn get_material(&self, hit: &Hit) -> (m: usize)
        ensures
            m == Object::CSG(*self).material_for(hit.csg_index),
        decreases self,
    {
        match is_node_left(self.csg_index, hit.get_csg_index()) {
            Some(false) => self.right.get_material(hit),
            _ => self.left.get_material(hit),
        }
    }

    /// Numbers this node `csg_index` and its children `2 * csg_index` and
    /// `2 * csg_index + 1`, and so on down the tree.
    pub fn set_csg_index(&mut self, csg_index: usize)
        requires
            Object::CSG(*old(self)).fits(csg_index as nat),
        ensures
            Object::CSG(*final(self)) == Object::CSG(*old(self)).indexed(csg_index as nat),
        decreases *old(self),
    {
        proof {
            fits_within_index_type(*self.left, 2 * csg_index as nat);
            fits_within_index_type(*self.right, 2 * csg_index as nat + 1);
        }
        self.csg_index = csg_index;
        self.left.set_csg_index(csg_index * 2);
        self.right.set_csg_index(csg_index * 2 + 1);
    }

    /// The primitives of the left side, then those of the right side.
    pub fn primitives(&self, obj_index: usize) -> (list: Vec<Primitive>)
        ensures
            list@ == Object::CSG(*self).primitive_seq(obj_index),
        decreases self,
    {
        let mut list = self.left.primitives(obj_index);
        let mut right = self.right.primitives(obj_index);
        list.append(&mut right);
        list
    }

    /// Removes and reverses the crossings that the composition does away
    /// with, after both sides have done the same below.
    pub fn filter_hits(&self, hits: Vec<Hit>, index: usize) -> (out: Vec<Hit>)
        ensures
            out@ == Object::CSG(*self).rewritten(hits@, index),
        decreases self,
    {
        let hits = self.left.filter_hits(hits, index);
        let hits = self.right.filter_hits(hits, index);
        filter_node(self.csg_type, self.csg_index, hits, index)
    }

    /// The reach of the bounding box of the composition.
    pub fn get_caustic_bounds(&self) -> (e: Extent)
        ensures
            e == Object::CSG(*self).extent(),
        decreases self,
    {
        let left = self.left.get_caustic_bounds();
        let right = self.right.get_caustic_bounds();
        match self.csg_type {
            CSGType::Union => {
                if left == Extent::Unbounded || right == Extent::Unbounded {
                    Extent::Unbounded
                } else if left == Extent::Bounded || right == Extent::Bounded {
                    Extent::Bounded
                } else {
                    Extent::Empty
                }
            },
            CSGType::Intersection => {
                if left == Extent::Empty || right == Extent::Empty {
                    Extent::Empty
                } else if left == Extent::Bounded || right == Extent::Bounded {
                    Extent::Bounded
                } else {
                    Extent::Unbounded
                }
            },
            CSGType::Subtract => left,
        }
    }

    /// A difference needs caustics if its left side does; a union or an
    /// intersection if either side does.
    pub fn needs_caustic(&self, materials: &Vec<Material>) -> (b: bool)
        requires
            Object::CSG(*self).materials_within(materials@.len()),
        ensures
            b == Object::CSG(*self).wants_caustic(materials@),
        decreases self,
    {
        match self.csg_type {
            CSGType::Subtract => self.left.needs_caustic(materials),
            _ => self.left.needs_caustic(materials) || self.right.needs_caustic(materials),
        }
    }
}

} // verus!
