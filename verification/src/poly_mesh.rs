//! The topology of a triangle mesh: which vertices each triangle joins and
//! which triangles meet at each vertex. The positions of the vertices and
//! the normals stay with the caller, in the order of the vertices and
//! triangles here.

use vstd::prelude::*;
use crate::hit::Hit;
use crate::material::Material;
use crate::object::{Extent, Object, Primitive, Shape, Solid};

verus! {

/// A face as a mesh file lists it: the indices of its three vertices.
#[derive(Clone, Copy, Debug, PartialEq, Eq, Structural)]
pub struct Triange(pub usize, pub usize, pub usize);

/// A triangle of a mesh: the indices of its corners in the vertex list.
#[derive(Clone, Copy, Debug, PartialEq, Eq, Structural)]
pub struct Triangle {
    pub an: usize,
    pub bn: usize,
    pub cn: usize,
}

/// A mesh of triangles.
#[derive(Debug, PartialEq, Eq)]
pub struct PolyMesh {
    /// The caller's handle for the positions and normals.
    pub handle: usize,
    pub triangles: Vec<Triangle>,
    /// For each vertex, the triangles that have it as a corner.
    pub vertex_triangles: Vec<Vec<usize>>,
    pub smoothing: bool,
    pub material: usize,
    pub csg_index: usize,
}

/// The triangle that a face makes: with `ord_rev` the second and third
/// corner change places, which turns the triangle round.
pub open spec fn triangle_of(face: Triange, ord_rev: bool) -> Triangle {
    if ord_rev {
        Triangle { an: face.0, bn: face.2, cn: face.1 }
    } else {
        Triangle { an: face.0, bn: face.1, cn: face.2 }
    }
}

/// Whether all three corners of a face are among `vertices` vertices.
pub open spec fn face_within(face: Triange, vertices: nat) -> bool {
    face.0 < vertices && face.1 < vertices && face.2 < vertices
}

/// The list `found` with triangle `i` added once for each of its corners
/// that is vertex `v`.
pub open spec fn with_corners(found: Seq<usize>, t: Triangle, i: usize, v: int) -> Seq<usize> {
    let a = if t.an == v {
        found.push(i)
    } else {
        found
    };
    let b = if t.bn == v {
        a.push(i)
    } else {
        a
    };
    if t.cn == v {
        b.push(i)
    } else {
        b
    }
}

/// The triangles among the first `n` that meet at vertex `v`, in ascending
/// order, each once for each of its corners that is `v`.
pub open spec fn incident(triangles: Seq<Triangle>, v: int, n: nat) -> Seq<usize>
    decreases n,
{
    if n == 0 {
        Seq::empty()
    } else {
        with_corners(
            incident(triangles, v, (n - 1) as nat),
            triangles[n - 1],
            (n - 1) as usize,
            v,
        )
    }
}

impl PolyMesh {
    /// Whether the mesh is as `new` builds it: every corner is a vertex, and
    /// every vertex knows the triangles that meet at it.
    pub open spec fn wf(self) -> bool {
        &&& forall|i: int|
            0 <= i < self.triangles@.len() ==> {
                let t = #[trigger] self.triangles@[i];
                t.an < self.vertex_triangles@.len() && t.bn < self.vertex_triangles@.len() && t.cn
                    < self.vertex_triangles@.len()
            }
        &&& forall|v: int|
            0 <= v < self.vertex_triangles@.len() ==> (#[trigger] self.vertex_triangles@[v])@
                == incident(self.triangles@, v, self.triangles@.len())
    }

    /// Tells whether every face joins three of `vertices` vertices.
    pub fn faces_fit(vertices: usize, faces: &Vec<Triange>) -> (b: bool)
        ensures
            b == forall|i: int|
                0 <= i < faces@.len() ==> face_within(#[trigger] faces@[i], vertices as nat),
    {
        let mut i: usize = 0;
        while i < faces.len()
            invariant
                i <= faces.len(),
                forall|k: int| 0 <= k < i ==> face_within(#[trigger] faces@[k], vertices as nat),
            decreases faces.len() - i,
        {
            let f: Triange = faces[i];
            if !(f.0 < vertices && f.1 < vertices && f.2 < vertices) {
                return false;
            }
            i += 1;
        }
        true
    }

    /// Builds the mesh of `vertices` vertices and the given faces, in their
    /// order. With `ord_rev` every face is turned round.
    pub fn new(
        handle: usize,
        vertices: usize,
        faces: &Vec<Triange>,
        material: usize,
        smooth: bool,
        ord_rev: bool,
    ) -> (mesh: PolyMesh)
        requires
            forall|i: int|
                0 <= i < faces@.len() ==> face_within(#[trigger] faces@[i], vertices as nat),
        ensures
            mesh.wf(),
            mesh.handle == handle,
            mesh.vertex_triangles@.len() == vertices,
            mesh.triangles@.len() == faces@.len(),
            forall|i: int|
                0 <= i < faces@.len() ==> #[trigger] mesh.triangles@[i] == triangle_of(
                    faces@[i],
                    ord_rev,
                ),
            mesh.smoothing == smooth,
            mesh.material == material,
            mesh.csg_index == 0,
    {
        let mut vertex_triangles: Vec<Vec<usize>> = Vec::new();
        let mut v: usize = 0;
        while v < vertices
            invariant
                v <= vertices,
                vertex_triangles@.len() == v,
                forall|k: int| 0 <= k < v ==> (#[trigger] vertex_triangles@[k])@.len() == 0,
            decreases vertices - v,
        {
            vertex_triangles.push(Vec::new());
            v += 1;
        }
        let mut triangles: Vec<Triangle> = Vec::new();
        let mut i: usize = 0;
        while i < faces.len()
            invariant
                i <= faces.len(),
                triangles@.len() == i,
                vertex_triangles@.len() == vertices,
                forall|k: int|
                    0 <= k < faces@.len() ==> face_within(#[trigger] faces@[k], vertices as nat),
                forall|k: int|
                    0 <= k < i ==> #[trigger] triangles@[k] == triangle_of(faces@[k], ord_rev),
                forall|k: int|
                    0 <= k < vertices ==> (#[trigger] vertex_triangles@[k])@ == incident(
                        triangles@,
                        k,
                        i as nat,
                    ),
            decreases faces.len() - i,
        {
            let f: Triange = faces[i];
            let t = if ord_rev {
                Triangle { an: f.0, bn: f.2, cn: f.1 }
            } else {
                Triangle { an: f.0, bn: f.1, cn: f.2 }
            };
            let ghost before = vertex_triangles@;
            let ghost earlier = triangles@;
            vertex_triangles[t.an].push(i);
            vertex_triangles[t.bn].push(i);
            vertex_triangles[t.cn].push(i);
            triangles.push(t);
            proof {
                assert forall|k: int| 0 <= k < vertices implies (#[trigger] vertex_triangles@[k])@
                    == incident(triangles@, k, (i + 1) as nat) by {
                    incident_reads_prefix(earlier, triangles@, k, i as nat);
                    assert(before[k]@ == incident(earlier, k, i as nat));
                    assert(vertex_triangles@[k]@ == with_corners(before[k]@, t, i, k));
                }
            }
            i += 1;
        }
        PolyMesh { handle, triangles, vertex_triangles, smoothing: smooth, material, csg_index: 0 }
    }

    /// Number of vertices.
    pub fn vertex_count(&self) -> (n: usize)
        ensures
            n == self.vertex_triangles@.len(),
    {
        self.vertex_triangles.len()
    }

    /// The triangles that meet at vertex `v`: those over which the normal
    /// at the vertex is averaged.
    pub fn triangles_at(&self, v: usize) -> (list: &Vec<usize>)
        requires
            v < self.vertex_triangles@.len(),
        ensures
            list == self.vertex_triangles@[v as int],
    {
        &self.vertex_triangles[v]
    }

    /// Index of the material, whatever the crossing.
    pub fn get_material(&self, hit: &Hit) -> (m: usize)
        ensures
            m == self.material,
    {
        self.material
    }

    pub fn set_csg_index(&mut self, csg_index: usize)
        ensures
            final(self).csg_index == csg_index,
            final(self).handle == old(self).handle,
            final(self).triangles == old(self).triangles,
            final(self).vertex_triangles == old(self).vertex_triangles,
            final(self).smoothing == old(self).smoothing,
            final(self).material == old(self).material,
    {
        self.csg_index = csg_index;
    }

    /// The mesh as a leaf of an object tree: one primitive for each
    /// triangle.
    pub open spec fn solid(self) -> Solid {
        Solid {
            shape: Shape::PolyMesh,
            handle: self.handle,
            parts: self.triangles@.len() as usize,
            material: self.material,
            csg_index: self.csg_index,
        }
    }

    /// The primitives of the mesh for the object at `obj_index`: one for
    /// each triangle, in order.
    pub fn primitives(&self, obj_index: usize) -> (list: Vec<Primitive>)
        ensures
            list@ == self.solid().primitive_seq(obj_index),
    {
        self.to_solid().primitives(obj_index)
    }

    /// A mesh leaves the list of crossings as it is.
    pub fn filter_hits(&self, hits: Vec<Hit>, index: usize) -> (out: Vec<Hit>)
        ensures
            out == hits,
    {
        hits
    }

    /// A mesh has the bounding box of its triangles: a finite one, or the
    /// box of nothing if it has no triangle.
    pub fn get_caustic_bounds(&self) -> (e: Extent)
        ensures
            e == (if self.triangles@.len() == 0 {
                Extent::Empty
            } else {
                Extent::Bounded
            }),
            e == self.solid().extent(),
    {
        if self.triangles.len() == 0 {
            Extent::Empty
        } else {
            Extent::Bounded
        }
    }

    /// A mesh needs caustics if its material does.
    pub fn needs_caustic(&self, materials: &Vec<Material>) -> (b: bool)
        requires
            self.material < materials@.len(),
        ensures
            b == materials@[self.material as int].wants_caustic(),
    {
        materials[self.material].needs_caustic()
    }

    /// The mesh as a leaf of an object tree.
    pub fn to_solid(&self) -> (s: Solid)
        ensures
            s == self.solid(),
    {
        Solid {
            shape: Shape::PolyMesh,
            handle: self.handle,
            parts: self.triangles.len(),
            material: self.material,
            csg_index: self.csg_index,
        }
    }

    /// The mesh as an object of a scene.
    pub fn object(&self) -> (o: Object)
        ensures
            o == Object::Solid(self.solid()),
    {
        Object::Solid(self.to_solid())
    }
}

/// What meets at a vertex among the first `n` triangles depends on those
/// triangles only.
pub proof fn incident_reads_prefix(a: Seq<Triangle>, b: Seq<Triangle>, v: int, n: nat)
    requires
        n <= a.len(),
        n <= b.len(),
        forall|i: int| 0 <= i < n ==> a[i] == b[i],
    ensures
        incident(a, v, n) == incident(b, v, n),
    decreases n,
{
    if n > 0 {
        incident_reads_prefix(a, b, v, (n - 1) as nat);
    }
}

/// A triangle is listed at a vertex exactly when the vertex is one of its
/// corners, and the lists are in ascending order of the triangles.
pub proof fn incident_lists_corners(triangles: Seq<Triangle>, v: int, n: nat)
    requires
        n <= triangles.len(),
        triangles.len() <= usize::MAX,
    ensures
        forall|k: int|
            0 <= k < incident(triangles, v, n).len() ==> {
                let i = #[trigger] incident(triangles, v, n)[k];
                i < n && (triangles[i as int].an == v || triangles[i as int].bn == v
                    || triangles[i as int].cn == v)
            },
        forall|i: int|
            0 <= i < n && ((#[trigger] triangles[i]).an == v || triangles[i].bn == v
                || triangles[i].cn == v) ==> incident(triangles, v, n).contains(i as usize),
        forall|j: int, k: int|
            0 <= j <= k < incident(triangles, v, n).len() ==> incident(triangles, v, n)[j]
                <= incident(triangles, v, n)[k],
    decreases n,
{
    if n > 0 {
        let m = (n - 1) as nat;
        incident_lists_corners(triangles, v, m);
        let found = incident(triangles, v, m);
        let t = triangles[n - 1];
        let now = incident(triangles, v, n);
        let last = (n - 1) as usize;
        assert(now == with_corners(found, t, last, v));
        assert forall|k: int| 0 <= k < now.len() implies (if k < found.len() {
            #[trigger] now[k] == found[k]
        } else {
            now[k] == last && (t.an == v || t.bn == v || t.cn == v)
        }) by {}
        assert forall|k: int| 0 <= k < now.len() implies {
            let i = #[trigger] now[k];
            i < n && (triangles[i as int].an == v || triangles[i as int].bn == v
                || triangles[i as int].cn == v)
        } by {
            if k < found.len() {
                assert(now[k] == found[k]);
            }
        }
        assert forall|j: int, k: int| 0 <= j <= k < now.len() implies now[j] <= now[k] by {
            if k < found.len() {
                assert(now[k] == found[k]);
                assert(now[j] == found[j]);
            } else if j < found.len() {
                assert(now[j] == found[j]);
            }
        }
        assert forall|i: int|
            0 <= i < n && ((#[trigger] triangles[i]).an == v || triangles[i].bn == v
                || triangles[i].cn == v) implies now.contains(i as usize) by {
            if i < m {
                let w = choose|w: int| 0 <= w < found.len() && found[w] == i as usize;
                assert(now[w] == i as usize);
            } else {
                assert(now[now.len() - 1] == i as usize);
            }
        }
    }
}

} // verus!
