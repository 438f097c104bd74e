//! The scene: its objects and materials, and the decisions of the
//! intersection pipeline, of shading and of photon tracing.

use vstd::prelude::*;
use crate::constants::{EPSILON_DEPTH, ORIGIN_DEPTH};
use crate::csg::filtered;
use crate::csg_laws::{filter_keeps_order, filtered_comes_from_hits};
use crate::hit::{ordered_by_depth, Hit};
use crate::material::{deeper_photon, next_photon_depth, Material};
use crate::object::{Extent, Object, Primitive};
use crate::photon::{Photon, PhotonType};
use crate::sorting::{by_depth, by_depth_holds_given_hits, by_depth_is_ordered, sort_hits};

verus! {

/// Depth key beyond which the depth reported for a pixel is cut off (the
/// double 100.0).
pub const DEPTH_CAP: i64 = 0x4059_0000_0000_0000;

/// A scene, built once and read from then on.
#[derive(Debug, PartialEq, Eq)]
pub struct Scene {
    /// The objects, each numbered from 1 at its root.
    pub objects: Vec<Object>,
    /// The table of materials that the objects index.
    pub materials: Vec<Material>,
    /// Number of lights.
    pub lights: usize,
    /// The primitives of all objects, in the order of the objects.
    pub primitives: Vec<Primitive>,
}

/// What a view ray is shaded with.
#[derive(Clone, Copy, Debug, PartialEq, Eq, Structural)]
pub struct Target {
    /// The nearest crossing in front of the origin at which the ray enters
    /// a solid.
    pub hit: Hit,
    /// Index of the material of the crossed leaf.
    pub material: usize,
    /// Depth key reported for the pixel, cut off at `DEPTH_CAP`.
    pub depth: i64,
}

/// A photon to be stored at a crossing.
#[derive(Clone, Copy, Debug, PartialEq, Eq, Structural)]
pub struct Deposit {
    pub hit: Hit,
    pub photon: Photon,
}

/// The continuation of a photon through the material it met.
#[derive(Clone, Copy, Debug, PartialEq, Eq, Structural)]
pub struct Bounce {
    /// Index of the material that computes the continuation.
    pub material: usize,
    /// Level at which it does so.
    pub recurse_depth: usize,
}

/// What a photon ray leaves in the scene.
#[derive(Debug, PartialEq, Eq)]
pub struct PhotonTrace {
    /// The crossing where the light first meets a surface.
    pub direct: Hit,
    /// The direct photon to store there; only the ray that comes from the
    /// light itself leaves one.
    pub direct_photon: Option<Photon>,
    /// How the photon goes on, if the guards allow it.
    pub bounce: Option<Bounce>,
    /// The shadow photons behind the first surface; only the ray that comes
    /// from the light itself leaves them.
    pub shadows: Vec<Deposit>,
}

/// The next step of a caustic ray aimed at an object.
#[derive(Clone, Copy, Debug, PartialEq, Eq, Structural)]
pub enum CausticStep {
    /// The ray leaves nothing.
    Miss,
    /// The ray has passed through the object and ends on another surface:
    /// a caustic photon is stored there.
    Store(Deposit),
    /// The ray meets the object: its material computes how the ray goes on.
    Refract { hit: Hit, bounce: Bounce },
}

/// The shadow photons of light `light_index` at the crossings of `hits`
/// from position `from` up to position `to` that lie beyond the tolerance.
pub open spec fn shadows_between(hits: Seq<Hit>, light_index: usize, from: int, to: int) -> Seq<
    Deposit,
>
    decreases to - from,
{
    if to <= from {
        Seq::empty()
    } else {
        let front = shadows_between(hits, light_index, from, to - 1);
        if hits[to - 1].depth > EPSILON_DEPTH {
            front.push(
                Deposit {
                    hit: hits[to - 1],
                    photon: Photon {
                        p_type: PhotonType::Shadow,
                        light_index,
                        obj: hits[to - 1].obj_index,
                    },
                },
            )
        } else {
            front
        }
    }
}

/// The primitives of the first `n` objects, each object with its index.
pub open spec fn primitives_of(objects: Seq<Object>, n: nat) -> Seq<Primitive>
    decreases n,
{
    if n == 0 {
        Seq::empty()
    } else {
        primitives_of(objects, (n - 1) as nat) + objects[n - 1].primitive_seq((n - 1) as usize)
    }
}

/// The list of crossings after the first `n` objects, in order, have each
/// rewritten it.
pub open spec fn rewritten_by(objects: Seq<Object>, hits: Seq<Hit>, n: nat) -> Seq<Hit>
    decreases n,
{
    if n == 0 {
        hits
    } else {
        objects[n - 1].rewritten(rewritten_by(objects, hits, (n - 1) as nat), (n - 1) as usize)
    }
}

/// Whether every crossing names an object below `count`.
pub open spec fn hits_within(hits: Seq<Hit>, count: nat) -> bool {
    forall|i: int| 0 <= i < hits.len() ==> (#[trigger] hits[i]).obj_index < count
}

/// Whether the ray enters a solid at the crossing, beyond the given depth.
pub open spec fn enters_beyond(hit: Hit, depth: i64) -> bool {
    hit.correct_dir && hit.depth > depth
}

/// Position of the first crossing from `from` on at which the ray enters a
/// solid beyond `depth`; the length of the list if there is none.
pub open spec fn first_entry(hits: Seq<Hit>, depth: i64, from: int) -> int
    decreases hits.len() - from,
{
    if from < 0 || from >= hits.len() {
        hits.len() as int
    } else if enters_beyond(hits[from], depth) {
        from
    } else {
        first_entry(hits, depth, from + 1)
    }
}

/// Finds the first crossing at which the ray enters a solid beyond `depth`.
pub fn find_first_entry(hits: &Vec<Hit>, depth: i64) -> (at: usize)
    ensures
        at == first_entry(hits@, depth, 0),
        at <= hits@.len(),
{
    let mut i: usize = 0;
    while i < hits.len()
        invariant
            i <= hits.len(),
            first_entry(hits@, depth, i as int) == first_entry(hits@, depth, 0),
        decreases hits.len() - i,
    {
        if hits[i].correct_dir && hits[i].depth > depth {
            return i;
        }
        i += 1;
    }
    i
}

impl Scene {
    /// Whether the scene can be built from these parts: the numbering of
    /// every object from 1 fits the index type, and every material index is
    /// in the table.
    pub open spec fn admits(objects: Seq<Object>, materials: Seq<Material>) -> bool {
        forall|i: int|
            0 <= i < objects.len() ==> (#[trigger] objects[i]).fits(1)
                && objects[i].materials_within(materials.len())
    }

    /// Whether the scene is as `new` builds it: every object is numbered
    /// from 1 at its root and indexes the table of materials, and the
    /// primitives are those of the objects.
    pub open spec fn wf(self) -> bool {
        &&& forall|i: int|
            0 <= i < self.objects@.len() ==> (#[trigger] self.objects@[i]).materials_within(
                self.materials@.len(),
            ) && self.objects@[i].fits(1) && self.objects@[i] == self.objects@[i].indexed(1)
        &&& self.primitives@ == primitives_of(self.objects@, self.objects@.len())
    }

    /// Tells whether a scene can be built from these parts.
    pub fn can_build(objects: &Vec<Object>, materials: &Vec<Material>) -> (b: bool)
        ensures
            b == Self::admits(objects@, materials@),
    {
        let mut i: usize = 0;
        while i < objects.len()
            invariant
                i <= objects.len(),
                forall|k: int|
                    0 <= k < i ==> (#[trigger] objects@[k]).fits(1) && objects@[k].materials_within(
                        materials@.len(),
                    ),
            decreases objects.len() - i,
        {
            if !objects[i].index_fits(1) || !objects[i].has_materials_within(materials.len()) {
                return false;
            }
            i += 1;
        }
        true
    }

    /// Builds the scene: numbers the tree of every object from 1 at its
    /// root and lists the primitives of all objects for the acceleration
    /// structure.
    pub fn new(objects: Vec<Object>, lights: usize, materials: Vec<Material>) -> (scene: Scene)
        requires
            Self::admits(objects@, materials@),
        ensures
            scene.wf(),
            scene.lights == lights,
            scene.materials == materials,
            scene.objects@.len() == objects@.len(),
            forall|i: int|
                0 <= i < objects@.len() ==> #[trigger] scene.objects@[i] == objects@[i].indexed(1),
    {
        let mut objects = objects;
        let ghost given = objects@;
        let mut i: usize = 0;
        while i < objects.len()
            invariant
                i <= objects.len(),
                objects@.len() == given.len(),
                forall|k: int| 0 <= k < i ==> #[trigger] objects@[k] == given[k].indexed(1),
                forall|k: int| i <= k < given.len() ==> #[trigger] objects@[k] == given[k],
                Self::admits(given, materials@),
            decreases objects.len() - i,
        {
            objects[i].set_csg_index(1);
            i += 1;
        }
        proof {
            assert forall|k: int| 0 <= k < objects@.len() implies (
            #[trigger] objects@[k]).materials_within(materials@.len()) && objects@[k].fits(1)
                && objects@[k] == objects@[k].indexed(1) by {
                indexing_keeps_materials(given[k], 1, materials@.len());
                indexing_is_settled(given[k], 1);
            }
        }
        let primitives = Self::list_primitives(&objects);
        Scene { objects, materials, lights, primitives }
    }

    /// Lists the primitives of all objects, each object with its index.
    pub fn list_primitives(objects: &Vec<Object>) -> (list: Vec<Primitive>)
        ensures
            list@ == primitives_of(objects@, objects@.len()),
    {
        let mut list: Vec<Primitive> = Vec::new();
        let mut i: usize = 0;
        while i < objects.len()
            invariant
                i <= objects.len(),
                list@ == primitives_of(objects@, i as nat),
            decreases objects.len() - i,
        {
            let mut more = objects[i].primitives(i);
            list.append(&mut more);
            i += 1;
        }
        list
    }

    /// Number of lights in the scene.
    pub fn get_lights(&self) -> (n: usize)
        ensures
            n == self.lights,
    {
        self.lights
    }

    /// The primitives of the scene, for the acceleration structure.
    pub fn get_primitives(&self) -> (list: &Vec<Primitive>)
        ensures
            list == self.primitives,
    {
        &self.primitives
    }

    /// All crossings of a ray, ordered by depth and rewritten by the
    /// composites: `hits` holds the crossings of the ray with the
    /// primitives in any order; they are ordered by depth, those behind the
    /// origin included, and then every object in turn rewrites the list.
    pub fn intersection(&self, hits: Vec<Hit>) -> (out: Vec<Hit>)
        ensures
            out@ == rewritten_by(self.objects@, by_depth(hits@), self.objects@.len()),
    {
        let mut hits = sort_hits(hits);
        let ghost ordered = hits@;
        let mut i: usize = 0;
        while i < self.objects.len()
            invariant
                i <= self.objects.len(),
                hits@ == rewritten_by(self.objects@, ordered, i as nat),
            decreases self.objects.len() - i,
        {
            hits = self.objects[i].filter_hits(hits, i);
            i += 1;
        }
        hits
    }

    /// What a view ray is shaded with, given the crossings that
    /// `intersection` returned for it: the first crossing in front of the
    /// origin at which the ray enters a solid, the material of the crossed
    /// leaf, and the depth to report. `None` if there is no such crossing:
    /// the ray sees black at depth 0.
    pub fn calc_ray(&self, hits: &Vec<Hit>) -> (target: Option<Target>)
        requires
            self.wf(),
            hits_within(hits@, self.objects@.len()),
        ensures
            first_entry(hits@, ORIGIN_DEPTH, 0) == hits@.len() ==> target is None,
            first_entry(hits@, ORIGIN_DEPTH, 0) < hits@.len() ==> target == Some(
                Self::target_of(self.objects@, hits@[first_entry(hits@, ORIGIN_DEPTH, 0)]),
            ),
    {
        let at = find_first_entry(hits, ORIGIN_DEPTH);
        if at < hits.len() {
            let hit: Hit = hits[at];
            let material = self.objects[hit.obj_index].get_material(&hit);
            let depth = if hit.depth < DEPTH_CAP {
                hit.depth
            } else {
                DEPTH_CAP
            };
            Some(Target { hit, material, depth })
        } else {
            None
        }
    }

    /// The target that a crossing makes.
    pub open spec fn target_of(objects: Seq<Object>, hit: Hit) -> Target {
        Target {
            hit,
            material: objects[hit.obj_index as int].material_for(hit.csg_index),
            depth: if hit.depth < DEPTH_CAP {
                hit.depth
            } else {
                DEPTH_CAP
            },
        }
    }

    /// What the photon ray of light `light_index` leaves, given the
    /// crossings that `intersection` returned for it. The light meets the
    /// first surface where the ray enters a solid beyond the tolerance;
    /// without such a crossing the ray leaves nothing. At level 0 a direct
    /// photon is stored there and a shadow photon at every later crossing
    /// beyond the tolerance. The photon goes on through the material of the
    /// surface, one level deeper, while the level is below the photon
    /// depth limit and the carried power is above the threshold
    /// (`power_live`).
    pub fn calculate_photon_ray(
        &self,
        hits: &Vec<Hit>,
        light_index: usize,
        recurse_depth: usize,
        power_live: bool,
    ) -> (trace: Option<PhotonTrace>)
        requires
            self.wf(),
            hits_within(hits@, self.objects@.len()),
        ensures
            first_entry(hits@, EPSILON_DEPTH, 0) == hits@.len() ==> trace is None,
            first_entry(hits@, EPSILON_DEPTH, 0) < hits@.len() ==> trace is Some && ({
                let at = first_entry(hits@, EPSILON_DEPTH, 0);
                let t = trace->0;
                &&& t.direct == hits@[at]
                &&& t.direct_photon == if recurse_depth == 0 {
                    Some(
                        Photon {
                            p_type: PhotonType::Direct,
                            light_index,
                            obj: hits@[at].obj_index,
                        },
                    )
                } else {
                    None
                }
                &&& t.bounce == match next_photon_depth(recurse_depth, power_live) {
                    Some(next) => Some(
                        Bounce {
                            material: self.objects@[hits@[at].obj_index as int].material_for(
                                hits@[at].csg_index,
                            ),
                            recurse_depth: next,
                        },
                    ),
                    None => None,
                }
                &&& t.shadows@ == if recurse_depth == 0 {
                    shadows_between(hits@, light_index, at + 1, hits@.len() as int)
                } else {
                    Seq::empty()
                }
            }),
    {
        let at = find_first_entry(hits, EPSILON_DEPTH);
        if at >= hits.len() {
            return None;
        }
        let direct: Hit = hits[at];
        let direct_photon = if recurse_depth == 0 {
            Some(Photon::new_direct(light_index, direct.obj_index))
        } else {
            None
        };
        let bounce = match deeper_photon(recurse_depth, power_live) {
            Some(next) => Some(
                Bounce {
                    material: self.objects[direct.obj_index].get_material(&direct),
                    recurse_depth: next,
                },
            ),
            None => None,
        };
        let mut shadows: Vec<Deposit> = Vec::new();
        if recurse_depth == 0 {
            let mut i: usize = at + 1;
            while i < hits.len()
                invariant
                    at < i <= hits.len(),
                    shadows@ == shadows_between(hits@, light_index, at + 1, i as int),
                decreases hits.len() - i,
            {
                let h: Hit = hits[i];
                if h.depth > EPSILON_DEPTH {
                    shadows.push(
                        Deposit { hit: h, photon: Photon::new_shadow(light_index, h.obj_index) },
                    );
                }
                i += 1;
            }
        }
        Some(PhotonTrace { direct, direct_photon, bounce, shadows })
    }

    /// The next step of a caustic ray of light `light_index` aimed at
    /// object `object_index`, given the crossings that `intersection`
    /// returned for it. The ray ends where it first enters a solid beyond
    /// the tolerance. If that solid is the object aimed at, the object's
    /// material takes the ray on, one level deeper. If it is another one,
    /// the ray leaves a caustic photon there, unless it is still at level 0
    /// and so has never met the object.
    pub fn calculate_caustic(
        &self,
        hits: &Vec<Hit>,
        object_index: usize,
        light_index: usize,
        recurse_depth: usize,
    ) -> (step: CausticStep)
        requires
            self.wf(),
            object_index < self.objects@.len(),
            recurse_depth < usize::MAX,
        ensures
            step == Self::caustic_step(
                self.objects@,
                hits@,
                object_index,
                light_index,
                recurse_depth,
            ),
    {
        let at = find_first_entry(hits, EPSILON_DEPTH);
        if at >= hits.len() {
            return CausticStep::Miss;
        }
        let hit: Hit = hits[at];
        if hit.obj_index != object_index {
            if recurse_depth == 0 {
                CausticStep::Miss
            } else {
                CausticStep::Store(
                    Deposit { hit, photon: Photon::new_caustic(light_index, object_index) },
                )
            }
        } else {
            CausticStep::Refract {
                hit,
                bounce: Bounce {
                    material: self.objects[object_index].get_material(&hit),
                    recurse_depth: recurse_depth + 1,
                },
            }
        }
    }

    /// The step that `calculate_caustic` takes.
    pub open spec fn caustic_step(
        objects: Seq<Object>,
        hits: Seq<Hit>,
        object_index: usize,
        light_index: usize,
        recurse_depth: usize,
    ) -> CausticStep {
        let at = first_entry(hits, EPSILON_DEPTH, 0);
        if at >= hits.len() {
            CausticStep::Miss
        } else if hits[at].obj_index != object_index {
            if recurse_depth == 0 {
                CausticStep::Miss
            } else {
                CausticStep::Store(
                    Deposit {
                        hit: hits[at],
                        photon: Photon {
                            p_type: PhotonType::Caustic,
                            light_index,
                            obj: object_index,
                        },
                    },
                )
            }
        } else {
            CausticStep::Refract {
                hit: hits[at],
                bounce: Bounce {
                    material: objects[object_index as int].material_for(hits[at].csg_index),
                    recurse_depth: (recurse_depth + 1) as usize,
                },
            }
        }
    }

    /// The objects at which caustic rays are fired: those that ask for
    /// caustic photons, in ascending order of their index.
    pub fn caustic_targets(&self) -> (list: Vec<usize>)
        requires
            self.wf(),
        ensures
            forall|k: int|
                0 <= k < list@.len() ==> (#[trigger] list@[k]) < self.objects@.len()
                    && self.objects@[list@[k] as int].wants_caustic(self.materials@),
            forall|j: int, k: int| 0 <= j < k < list@.len() ==> list@[j] < list@[k],
            forall|i: int|
                0 <= i < self.objects@.len() && (#[trigger] self.objects@[i]).wants_caustic(
                    self.materials@,
                ) ==> list@.contains(i as usize),
    {
        let mut list: Vec<usize> = Vec::new();
        let mut i: usize = 0;
        while i < self.objects.len()
            invariant
                i <= self.objects.len(),
                self.wf(),
                forall|k: int|
                    0 <= k < list@.len() ==> (#[trigger] list@[k]) < i
                        && self.objects@[list@[k] as int].wants_caustic(self.materials@),
                forall|j: int, k: int| 0 <= j < k < list@.len() ==> list@[j] < list@[k],
                forall|j: int|
                    0 <= j < i && (#[trigger] self.objects@[j]).wants_caustic(self.materials@)
                        ==> list@.contains(j as usize),
            decreases self.objects.len() - i,
        {
            if self.objects[i].needs_caustic(&self.materials) {
                let ghost before = list@;
                list.push(i);
                proof {
                    assert(list@[before.len() as int] == i);
                    assert forall|j: int|
                        0 <= j < i + 1 && (#[trigger] self.objects@[j]).wants_caustic(
                            self.materials@,
                        ) implies list@.contains(j as usize) by {
                        if j < i {
                            let w = choose|w: int| 0 <= w < before.len() && before[w] == j as usize;
                            assert(list@[w] == j as usize);
                        }
                    }
                }
            }
            i += 1;
        }
        list
    }

    /// The first object that asks for caustic photons but cannot be boxed
    /// in, if there is one. Caustic rays cannot be aimed at such an object:
    /// it has to be wrapped in an intersection with a bounded one.
    pub fn unbounded_caustic_target(&self) -> (found: Option<usize>)
        requires
            self.wf(),
        ensures
            match found {
                Some(i) => i < self.objects@.len() && Self::is_unbounded_target(
                    self.objects@[i as int],
                    self.materials@,
                ) && forall|j: int|
                    0 <= j < i ==> !Self::is_unbounded_target(
                        #[trigger] self.objects@[j],
                        self.materials@,
                    ),
                None => forall|j: int|
                    0 <= j < self.objects@.len() ==> !Self::is_unbounded_target(
                        #[trigger] self.objects@[j],
                        self.materials@,
                    ),
            },
    {
        let mut i: usize = 0;
        while i < self.objects.len()
            invariant
                i <= self.objects.len(),
                self.wf(),
                forall|j: int|
                    0 <= j < i ==> !Self::is_unbounded_target(
                        #[trigger] self.objects@[j],
                        self.materials@,
                    ),
            decreases self.objects.len() - i,
        {
            if self.objects[i].needs_caustic(&self.materials) {
                match self.objects[i].get_caustic_bounds() {
                    Extent::Bounded => {},
                    _ => {
                        return Some(i);
                    },
                }
            }
            i += 1;
        }
        None
    }

    /// Whether an object asks for caustic photons without having a finite
    /// bounding box.
    pub open spec fn is_unbounded_target(object: Object, materials: Seq<Material>) -> bool {
        object.wants_caustic(materials) && object.extent() != Extent::Bounded
    }

    /// Tells whether the material at `mat` asks for caustic photons.
    pub fn material_needs_caustic(&self, mat: usize) -> (b: bool)
        requires
            mat < self.materials@.len(),
        ensures
            b == self.materials@[mat as int].wants_caustic(),
    {
        self.materials[mat].needs_caustic()
    }
}

/// An object that rewrites an ordered list returns an ordered list.
pub proof fn rewriting_keeps_order(object: Object, hits: Seq<Hit>, index: usize)
    requires
        ordered_by_depth(hits),
    ensures
        ordered_by_depth(object.rewritten(hits, index)),
    decreases object,
{
    match object {
        Object::Solid(_) => {},
        Object::CSG(c) => {
            let left = c.left.rewritten(hits, index);
            rewriting_keeps_order(*c.left, hits, index);
            let below = c.right.rewritten(left, index);
            rewriting_keeps_order(*c.right, left, index);
            filter_keeps_order(c.csg_type, c.csg_index, index, below, below.len());
        },
    }
}

/// The crossings that `intersection` returns are ordered by increasing
/// depth, whatever the order in which they were given.
pub proof fn intersection_is_ordered(objects: Seq<Object>, hits: Seq<Hit>, n: nat)
    requires
        n <= objects.len(),
    ensures
        ordered_by_depth(rewritten_by(objects, by_depth(hits), n)),
    decreases n,
{
    if n == 0 {
        by_depth_is_ordered(hits);
    } else {
        intersection_is_ordered(objects, hits, (n - 1) as nat);
        rewriting_keeps_order(
            objects[n - 1],
            rewritten_by(objects, by_depth(hits), (n - 1) as nat),
            (n - 1) as usize,
        );
    }
}

/// An object that rewrites a list of crossings brings in no object that
/// the list did not name.
pub proof fn rewriting_names_known_objects(object: Object, hits: Seq<Hit>, index: usize, count: nat)
    requires
        hits_within(hits, count),
    ensures
        hits_within(object.rewritten(hits, index), count),
    decreases object,
{
    match object {
        Object::Solid(_) => {},
        Object::CSG(c) => {
            let left = c.left.rewritten(hits, index);
            rewriting_names_known_objects(*c.left, hits, index, count);
            let below = c.right.rewritten(left, index);
            rewriting_names_known_objects(*c.right, left, index, count);
            let out = filtered(c.csg_type, c.csg_index, index, below, below.len());
            assert forall|k: int| 0 <= k < out.len() implies (#[trigger] out[k]).obj_index
                < count by {
                filtered_comes_from_hits(c.csg_type, c.csg_index, index, below, below.len(), k);
                let j = choose|j: int|
                    0 <= j < below.len() && (out[k] == #[trigger] below[j] || out[k]
                        == below[j].flipped());
                assert(below[j].obj_index < count);
            }
        },
    }
}

/// The crossings that `intersection` returns name objects of the scene if
/// the crossings that were given do, so `calc_ray` and the photon steps
/// take what `intersection` returns.
pub proof fn intersection_names_known_objects(
    objects: Seq<Object>,
    hits: Seq<Hit>,
    n: nat,
    count: nat,
)
    requires
        n <= objects.len(),
        hits_within(hits, count),
    ensures
        hits_within(rewritten_by(objects, by_depth(hits), n), count),
    decreases n,
{
    if n == 0 {
        assert forall|k: int| 0 <= k < by_depth(hits).len() implies (#[trigger] by_depth(
            hits,
        )[k]).obj_index < count by {
            by_depth_holds_given_hits(hits, k);
            let j = choose|j: int| 0 <= j < hits.len() && #[trigger] hits[j] == by_depth(hits)[k];
            assert(hits[j].obj_index < count);
        }
    } else {
        intersection_names_known_objects(objects, hits, (n - 1) as nat, count);
        rewriting_names_known_objects(
            objects[n - 1],
            rewritten_by(objects, by_depth(hits), (n - 1) as nat),
            (n - 1) as usize,
            count,
        );
    }
}

/// A scene without composites returns every crossing, ordered by depth.
pub proof fn solids_keep_every_hit(objects: Seq<Object>, hits: Seq<Hit>, n: nat)
    requires
        n <= objects.len(),
        forall|i: int| 0 <= i < n ==> #[trigger] objects[i] is Solid,
    ensures
        rewritten_by(objects, hits, n) == hits,
    decreases n,
{
    if n > 0 {
        solids_keep_every_hit(objects, hits, (n - 1) as nat);
    }
}

/// A tree that is numbered stays as it is when it is numbered again from
/// the same root, and its numbering fits as before.
pub proof fn indexing_is_settled(object: Object, csg_index: nat)
    ensures
        object.indexed(csg_index).indexed(csg_index) == object.indexed(csg_index),
        object.indexed(csg_index).fits(csg_index) == object.fits(csg_index),
    decreases object,
{
    match object {
        Object::Solid(_) => {},
        Object::CSG(c) => {
            indexing_is_settled(*c.left, 2 * csg_index);
            indexing_is_settled(*c.right, 2 * csg_index + 1);
        },
    }
}

/// Numbering a tree changes no material index.
pub proof fn indexing_keeps_materials(object: Object, csg_index: nat, count: nat)
    ensures
        object.indexed(csg_index).materials_within(count) == object.materials_within(count),
    decreases object,
{
    match object {
        Object::Solid(_) => {},
        Object::CSG(c) => {
            indexing_keeps_materials(*c.left, 2 * csg_index, count);
            indexing_keeps_materials(*c.right, 2 * csg_index + 1, count);
        },
    }
}

} // verus!
