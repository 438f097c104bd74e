//! The fixed set of materials, as far as their behaviour is discrete: which
//! of them ask for caustic photons, and when a recursive material may go one
//! level deeper.

use vstd::prelude::*;
use crate::constants::{EPSILON_DEPTH, MAX_PHOTON_RECURSE_DEPTH, MAX_RECURSE_DEPTH};
use crate::hit::Hit;
use crate::photon::{Photon, PhotonType};
use crate::sorting::{by_depth, by_depth_is_ordered, sort_hits};

verus! {

/// Adds the light gathered from the photon maps.
#[derive(Clone, Copy, Debug, PartialEq, Eq, Structural)]
pub struct AmbientMaterial {}

/// Diffuse shading under each light.
#[derive(Clone, Copy, Debug, PartialEq, Eq, Structural)]
pub struct DiffuseMaterial {}

/// Specular highlights with the given exponent.
#[derive(Clone, Copy, Debug, PartialEq, Eq, Structural)]
pub struct SpecularMaterial {
    pub power: i32,
}

/// A perfect mirror.
#[derive(Clone, Copy, Debug, PartialEq, Eq, Structural)]
pub struct ReflectiveMaterial {
    pub mat_index: usize,
}

/// A dielectric that reflects and refracts.
#[derive(Clone, Copy, Debug, PartialEq, Eq, Structural)]
pub struct TransparentMaterial {}

/// One flat colour.
#[derive(Clone, Copy, Debug, PartialEq, Eq, Structural)]
pub struct SimpleColorMaterial {
    pub mat_index: usize,
}

/// Shows the surface normal as a colour.
#[derive(Clone, Copy, Debug, PartialEq, Eq, Structural)]
pub struct FalseColorMaterial {
    pub mat_index: usize,
}

/// A mixture of other materials. The weights and the base colour are kept
/// by the caller, one weight for each child in order.
#[derive(Debug, PartialEq, Eq)]
pub struct CompoundMaterial {
    pub materials: Vec<Material>,
}

/// Any material.
#[derive(Debug, PartialEq, Eq)]
pub enum Material {
    Ambient(AmbientMaterial),
    Diffuse(DiffuseMaterial),
    Specular(SpecularMaterial),
    Reflective(ReflectiveMaterial),
    Transparent(TransparentMaterial),
    Compound(CompoundMaterial),
    SimpleColor(SimpleColorMaterial),
    FalseColor(FalseColorMaterial),
}

/// The level at which a colour computation may start one level deeper:
/// `Some(recurse_depth + 1)` while the depth is below the limit and the
/// carried power is still above the threshold (`power_live`), else `None`.
pub open spec fn next_depth(recurse_depth: usize, power_live: bool) -> Option<usize> {
    if recurse_depth < MAX_RECURSE_DEPTH && power_live {
        Some((recurse_depth + 1) as usize)
    } else {
        None
    }
}

/// The level at which a photon computation may start one level deeper.
pub open spec fn next_photon_depth(recurse_depth: usize, power_live: bool) -> Option<usize> {
    if recurse_depth < MAX_PHOTON_RECURSE_DEPTH && power_live {
        Some((recurse_depth + 1) as usize)
    } else {
        None
    }
}

/// Decides whether a colour computation at `recurse_depth` may recurse.
pub fn deeper(recurse_depth: usize, power_live: bool) -> (next: Option<usize>)
    ensures
        next == next_depth(recurse_depth, power_live),
{
    if recurse_depth < MAX_RECURSE_DEPTH && power_live {
        Some(recurse_depth + 1)
    } else {
        None
    }
}

/// Decides whether a photon computation at `recurse_depth` may recurse.
pub fn deeper_photon(recurse_depth: usize, power_live: bool) -> (next: Option<usize>)
    ensures
        next == next_photon_depth(recurse_depth, power_live),
{
    if recurse_depth < MAX_PHOTON_RECURSE_DEPTH && power_live {
        Some(recurse_depth + 1)
    } else {
        None
    }
}

impl AmbientMaterial {
    pub fn new() -> (m: AmbientMaterial)
        ensures
            m == (AmbientMaterial {  }),
    {
        AmbientMaterial {  }
    }

    /// Whether a photon found near a point on object `obj_index` counts for
    /// the radiance there: it does if it is indirect and lies on that object.
    pub open spec fn gathers_spec(photon: Photon, obj_index: usize) -> bool {
        photon.p_type == PhotonType::Indirect && photon.obj == obj_index
    }

    /// Tells whether a photon counts for the radiance on object `obj_index`.
    pub fn gathers(&self, photon: &Photon, obj_index: usize) -> (b: bool)
        ensures
            b == Self::gathers_spec(*photon, obj_index),
    {
        photon.p_type == PhotonType::Indirect && photon.obj == obj_index
    }

    /// A photon that meets this material is absorbed: it leaves one indirect
    /// photon on the object and goes no further.
    pub fn compute_photon(&self, obj_index: usize, light_index: usize) -> (photons: Vec<Photon>)
        ensures
            photons@ == seq![
                (Photon { p_type: PhotonType::Indirect, light_index, obj: obj_index }),
            ],
    {
        let mut photons: Vec<Photon> = Vec::new();
        photons.push(Photon::new_indirect(light_index, obj_index));
        photons
    }

    pub fn needs_caustic(&self) -> (b: bool)
        ensures
            !b,
    {
        false
    }
}

impl DiffuseMaterial {
    pub fn new() -> (m: DiffuseMaterial)
        ensures
            m == (DiffuseMaterial {  }),
    {
        DiffuseMaterial {  }
    }

    pub fn needs_caustic(&self) -> (b: bool)
        ensures
            !b,
    {
        false
    }
}

impl SpecularMaterial {
    pub fn new(power: i32) -> (m: SpecularMaterial)
        ensures
            m.power == power,
    {
        SpecularMaterial { power }
    }

    pub fn needs_caustic(&self) -> (b: bool)
        ensures
            !b,
    {
        false
    }
}

impl ReflectiveMaterial {
    pub fn new() -> (m: ReflectiveMaterial)
        ensures
            m.mat_index == 0,
    {
        ReflectiveMaterial { mat_index: 0 }
    }

    /// The level at which the mirrored ray is traced, or `None` where the
    /// mirror contributes black: it recurses only below the depth limit and
    /// with carried power above the threshold.
    pub fn compute(&self, recurse_depth: usize, power_live: bool) -> (next: Option<usize>)
        ensures
            next == next_depth(recurse_depth, power_live),
    {
        deeper(recurse_depth, power_live)
    }

    pub fn needs_caustic(&self) -> (b: bool)
        ensures
            !b,
    {
        false
    }
}

impl SimpleColorMaterial {
    pub fn new() -> (m: SimpleColorMaterial)
        ensures
            m.mat_index == 0,
    {
        SimpleColorMaterial { mat_index: 0 }
    }

    pub fn update_mat_index(&mut self, i: usize)
        ensures
            final(self).mat_index == i,
    {
        self.mat_index = i;
    }

    pub fn get_mat_index(&self) -> (i: usize)
        ensures
            i == self.mat_index,
    {
        self.mat_index
    }

    pub fn needs_caustic(&self) -> (b: bool)
        ensures
            !b,
    {
        false
    }
}

impl FalseColorMaterial {
    pub fn new() -> (m: FalseColorMaterial)
        ensures
            m.mat_index == 0,
    {
        FalseColorMaterial { mat_index: 0 }
    }

    /// This material is for inspection only and leaves no photons.
    pub fn compute_photon(&self) -> (photons: Vec<Photon>)
        ensures
            photons@.len() == 0,
    {
        Vec::new()
    }

    pub fn needs_caustic(&self) -> (b: bool)
        ensures
            !b,
    {
        false
    }
}

/// Whether any material of the list asks for caustic photons.
pub open spec fn any_wants_caustic(materials: Seq<Material>) -> bool
    decreases materials,
{
    materials.len() > 0 && (materials.last().wants_caustic() || any_wants_caustic(
        materials.drop_last(),
    ))
}

impl Material {
    /// Whether the material asks for caustic photons: a transparent material
    /// does, and so does a mixture with a child that does.
    pub open spec fn wants_caustic(self) -> bool
        decreases self,
    {
        match self {
            Material::Transparent(_) => true,
            Material::Compound(c) => any_wants_caustic(c.materials@),
            _ => false,
        }
    }

    /// Tells whether the material asks for caustic photons.
    pub fn needs_caustic(&self) -> (b: bool)
        ensures
            b == self.wants_caustic(),
        decreases self,
    {
        match self {
            Material::Ambient(m) => m.needs_caustic(),
            Material::Diffuse(m) => m.needs_caustic(),
            Material::Specular(m) => m.needs_caustic(),
            Material::Reflective(m) => m.needs_caustic(),
            Material::Transparent(m) => m.needs_caustic(),
            Material::Compound(m) => m.needs_caustic(),
            Material::SimpleColor(m) => m.needs_caustic(),
            Material::FalseColor(m) => m.needs_caustic(),
        }
    }
}

impl CompoundMaterial {
    /// A mixture of the given materials.
    pub fn new(materials: Vec<Material>) -> (m: CompoundMaterial)
        ensures
            m.materials == materials,
    {
        CompoundMaterial { materials }
    }

    /// A matte surface: ambient, diffuse and specular parts.
    pub fn new_matte_material() -> (m: CompoundMaterial)
        ensures
            m.materials@.len() == 3,
            m.materials@[0] is Ambient,
            m.materials@[1] is Diffuse,
            m.materials@[2] == Material::Specular(SpecularMaterial { power: 10 }),
            !Material::Compound(m).wants_caustic(),
    {
        let mut materials: Vec<Material> = Vec::new();
        materials.push(Material::Ambient(AmbientMaterial::new()));
        materials.push(Material::Diffuse(DiffuseMaterial::new()));
        materials.push(Material::Specular(SpecularMaterial::new(10)));
        let m = CompoundMaterial::new(materials);
        proof {
            compound_wants_caustic_with_a_child(m);
        }
        m
    }

    /// A matte surface under a mirror.
    pub fn new_reflective_material() -> (m: CompoundMaterial)
        ensures
            m.materials@.len() == 2,
            m.materials@[0] is Compound,
            m.materials@[1] is Reflective,
            !Material::Compound(m).wants_caustic(),
    {
        let mut materials: Vec<Material> = Vec::new();
        materials.push(Material::Compound(CompoundMaterial::new_matte_material()));
        materials.push(Material::Reflective(ReflectiveMaterial::new()));
        let m = CompoundMaterial::new(materials);
        proof {
            compound_wants_caustic_with_a_child(m);
        }
        m
    }

    /// A matte surface under a dielectric.
    pub fn new_transparent_material() -> (m: CompoundMaterial)
        ensures
            m.materials@.len() == 2,
            m.materials@[0] is Compound,
            m.materials@[1] is Transparent,
            Material::Compound(m).wants_caustic(),
    {
        let mut materials: Vec<Material> = Vec::new();
        materials.push(Material::Compound(CompoundMaterial::new_matte_material()));
        materials.push(Material::Transparent(TransparentMaterial::new()));
        let m = CompoundMaterial::new(materials);
        proof {
            compound_wants_caustic_with_a_child(m);
            assert(m.materials@[1].wants_caustic());
        }
        m
    }

    /// A dielectric with a matte and a diffuse part mixed in.
    pub fn new_transparent_material_opacity() -> (m: CompoundMaterial)
        ensures
            m.materials@.len() == 3,
            m.materials@[0] is Compound,
            m.materials@[1] is Transparent,
            m.materials@[2] is Diffuse,
            Material::Compound(m).wants_caustic(),
    {
        let mut materials: Vec<Material> = Vec::new();
        materials.push(Material::Compound(CompoundMaterial::new_matte_material()));
        materials.push(Material::Transparent(TransparentMaterial::new()));
        materials.push(Material::Diffuse(DiffuseMaterial::new()));
        let m = CompoundMaterial::new(materials);
        proof {
            compound_wants_caustic_with_a_child(m);
            assert(m.materials@[1].wants_caustic());
        }
        m
    }

    /// A photon that meets a mixture goes on through one child, and in any
    /// case leaves one indirect photon on the object. This appends that
    /// photon to what the chosen child returned.
    pub fn compute_photon(
        &self,
        from_child: Vec<Photon>,
        obj_index: usize,
        light_index: usize,
    ) -> (photons: Vec<Photon>)
        ensures
            photons@ == from_child@.push(
                Photon { p_type: PhotonType::Indirect, light_index, obj: obj_index },
            ),
    {
        let mut photons = from_child;
        photons.push(Photon::new_indirect(light_index, obj_index));
        photons
    }

    /// A mixture asks for caustic photons if any child does.
    pub fn needs_caustic(&self) -> (b: bool)
        ensures
            b == Material::Compound(*self).wants_caustic(),
        decreases self,
    {
        let mut i: usize = 0;
        while i < self.materials.len()
            invariant
                i <= self.materials.len(),
                forall|k: int| 0 <= k < i ==> !(#[trigger] self.materials@[k]).wants_caustic(),
            decreases self.materials.len() - i,
        {
            if self.materials[i].needs_caustic() {
                proof {
                    compound_wants_caustic_with_a_child(*self);
                }
                return true;
            }
            i += 1;
        }
        proof {
            compound_wants_caustic_with_a_child(*self);
        }
        false
    }
}

/// Where a ray goes on at the surface of a dielectric.
#[derive(Clone, Copy, Debug, PartialEq, Eq, Structural)]
pub enum Branch {
    /// Along the mirrored direction.
    Reflected,
    /// Along the refracted direction.
    Refracted,
}

/// The next step of a photon at the surface of a transparent object.
#[derive(Clone, Copy, Debug, PartialEq, Eq, Structural)]
pub enum PhotonStep {
    /// The photon is lost.
    Stop,
    /// The photon goes on inside the object: find where the branch next
    /// leaves the object and take the next step there, one level deeper and
    /// inside; if it leaves nowhere, the photon is lost.
    Inside { branch: Branch, recurse_depth: usize },
    /// The photon leaves toward the scene as a caustic ray of the object.
    Caustic { branch: Branch, recurse_depth: usize },
    /// The photon leaves toward the scene as an ordinary photon ray.
    Scene { branch: Branch, recurse_depth: usize },
}

/// What the two branches of a view ray at a transparent surface contribute.
#[derive(Clone, Copy, Debug, PartialEq, Eq, Structural)]
pub struct SplitPlan {
    /// Level at which the reflected branch is followed, if it is.
    pub reflected: Option<usize>,
    /// Level at which the refracted branch is followed, if it is.
    pub refracted: Option<usize>,
}

/// How an internal ray of a transparent object is resolved.
#[derive(Clone, Copy, Debug, PartialEq, Eq, Structural)]
pub enum InternalPlan {
    /// The ray meets no exit of the object: it is traced into the scene at
    /// the given level, whatever the guards say.
    Escape { recurse_depth: usize },
    /// The ray meets an exit: the reflected branch stays inside, the
    /// refracted one leaves into the scene, each followed at the given level
    /// if its guard allows.
    Split(SplitPlan),
}

/// Whether the ray leaves object `obj_index` at the crossing, beyond the
/// tolerance.
pub open spec fn leaves_object(hit: Hit, obj_index: usize) -> bool {
    !hit.correct_dir && hit.depth > EPSILON_DEPTH && hit.obj_index == obj_index
}

/// The crossings among the first `n` at which the ray leaves object
/// `obj_index` beyond the tolerance, in the order of the list.
pub open spec fn exits_of(hits: Seq<Hit>, obj_index: usize, n: nat) -> Seq<Hit>
    decreases n,
{
    if n == 0 {
        Seq::empty()
    } else {
        let front = exits_of(hits, obj_index, (n - 1) as nat);
        if leaves_object(hits[n - 1], obj_index) {
            front.push(hits[n - 1])
        } else {
            front
        }
    }
}

impl TransparentMaterial {
    pub fn new() -> (m: TransparentMaterial)
        ensures
            m == (TransparentMaterial {  }),
    {
        TransparentMaterial {  }
    }

    /// Transparent objects do need caustic photons.
    pub fn needs_caustic(&self) -> (b: bool)
        ensures
            b,
    {
        true
    }

    /// Where an internal ray leaves the object: the nearest crossing beyond
    /// the tolerance at which the ray leaves object `obj_index`, the first
    /// such in the list among equally near ones. `None` if the ray leaves
    /// nowhere, as it may in an object that is not closed.
    pub fn find_internal_hit(&self, hits: &Vec<Hit>, obj_index: usize) -> (exit: Option<Hit>)
        ensures
            exit == (if exits_of(hits@, obj_index, hits@.len()).len() == 0 {
                None
            } else {
                Some(by_depth(exits_of(hits@, obj_index, hits@.len()))[0])
            }),
    {
        let mut exits: Vec<Hit> = Vec::new();
        let mut i: usize = 0;
        while i < hits.len()
            invariant
                i <= hits.len(),
                exits@ == exits_of(hits@, obj_index, i as nat),
            decreases hits.len() - i,
        {
            let h: Hit = hits[i];
            if !h.correct_dir && h.depth > EPSILON_DEPTH && h.obj_index == obj_index {
                exits.push(h);
            }
            i += 1;
        }
        let ghost found = exits@;
        let exits = sort_hits(exits);
        proof {
            by_depth_is_ordered(found);
        }
        if exits.len() > 0 {
            Some(exits[0])
        } else {
            None
        }
    }

    /// The plan for a view ray that meets the surface from outside. The
    /// reflected branch is traced in the scene one level deeper. The
    /// refracted branch becomes an internal ray at the same level. Either is
    /// followed only below the depth limit and while its share of the
    /// carried power is above the threshold.
    pub open spec fn surface_plan(recurse_depth: usize, reflected_live: bool, refracted_live: bool)
        -> SplitPlan {
        SplitPlan {
            reflected: next_depth(recurse_depth, reflected_live),
            refracted: if recurse_depth < MAX_RECURSE_DEPTH && refracted_live {
                Some(recurse_depth)
            } else {
                None
            },
        }
    }

    /// Plans the two branches of a view ray at the outer surface.
    pub fn compute(&self, recurse_depth: usize, reflected_live: bool, refracted_live: bool) -> (plan:
        SplitPlan)
        ensures
            plan == Self::surface_plan(recurse_depth, reflected_live, refracted_live),
    {
        SplitPlan {
            reflected: deeper(recurse_depth, reflected_live),
            refracted: if recurse_depth < MAX_RECURSE_DEPTH && refracted_live {
                Some(recurse_depth)
            } else {
                None
            },
        }
    }

    /// The plan for an internal ray: with an exit found, both branches go
    /// one level deeper under their guards; with none, the ray escapes into
    /// the scene one level deeper.
    pub open spec fn internal_plan(
        exit_found: bool,
        recurse_depth: usize,
        reflected_live: bool,
        refracted_live: bool,
    ) -> InternalPlan {
        if exit_found {
            InternalPlan::Split(
                SplitPlan {
                    reflected: next_depth(recurse_depth, reflected_live),
                    refracted: next_depth(recurse_depth, refracted_live),
                },
            )
        } else {
            InternalPlan::Escape { recurse_depth: (recurse_depth + 1) as usize }
        }
    }

    /// Plans how an internal ray is resolved.
    pub fn calc_internal_ray(
        &self,
        exit_found: bool,
        recurse_depth: usize,
        reflected_live: bool,
        refracted_live: bool,
    ) -> (plan: InternalPlan)
        requires
            recurse_depth < usize::MAX,
        ensures
            plan == Self::internal_plan(exit_found, recurse_depth, reflected_live, refracted_live),
    {
        if exit_found {
            InternalPlan::Split(
                SplitPlan {
                    reflected: deeper(recurse_depth, reflected_live),
                    refracted: deeper(recurse_depth, refracted_live),
                },
            )
        } else {
            InternalPlan::Escape { recurse_depth: recurse_depth + 1 }
        }
    }

    /// The step of a photon at the surface, by the table: beyond the photon
    /// depth limit it is lost. A branch that stays in the object (reflected
    /// inside, refracted from outside) goes on inside, one level deeper. A
    /// branch that leaves the object goes into the scene: as a caustic ray
    /// at the same level, or as a photon ray one level deeper.
    pub open spec fn photon_step(recurse_depth: usize, inside: bool, caustic: bool, reflected: bool)
        -> PhotonStep {
        let branch = if reflected {
            Branch::Reflected
        } else {
            Branch::Refracted
        };
        if recurse_depth > MAX_PHOTON_RECURSE_DEPTH {
            PhotonStep::Stop
        } else if reflected == inside {
            PhotonStep::Inside { branch, recurse_depth: (recurse_depth + 1) as usize }
        } else if caustic {
            PhotonStep::Caustic { branch, recurse_depth }
        } else {
            PhotonStep::Scene { branch, recurse_depth: (recurse_depth + 1) as usize }
        }
    }

    /// Decides the next step of a photon at the surface. `reflected` says
    /// which branch the random draw against the reflection coefficient
    /// chose.
    pub fn calc_photon_internal(
        &self,
        recurse_depth: usize,
        inside: bool,
        caustic: bool,
        reflected: bool,
    ) -> (step: PhotonStep)
        ensures
            step == Self::photon_step(recurse_depth, inside, caustic, reflected),
    {
        if recurse_depth > MAX_PHOTON_RECURSE_DEPTH {
            return PhotonStep::Stop;
        }
        if reflected {
            if inside {
                PhotonStep::Inside { branch: Branch::Reflected, recurse_depth: recurse_depth + 1 }
            } else if caustic {
                PhotonStep::Caustic { branch: Branch::Reflected, recurse_depth }
            } else {
                PhotonStep::Scene { branch: Branch::Reflected, recurse_depth: recurse_depth + 1 }
            }
        } else {
            if inside {
                if caustic {
                    PhotonStep::Caustic { branch: Branch::Refracted, recurse_depth }
                } else {
                    PhotonStep::Scene {
                        branch: Branch::Refracted,
                        recurse_depth: recurse_depth + 1,
                    }
                }
            } else {
                PhotonStep::Inside { branch: Branch::Refracted, recurse_depth: recurse_depth + 1 }
            }
        }
    }

    /// The first step of an ordinary photon that meets the surface from
    /// outside.
    pub fn compute_photon(&self, recurse_depth: usize, reflected: bool) -> (step: PhotonStep)
        ensures
            step == Self::photon_step(recurse_depth, false, false, reflected),
    {
        self.calc_photon_internal(recurse_depth, false, false, reflected)
    }

    /// The first step of a caustic photon that meets the surface from
    /// outside.
    pub fn compute_caustic_ray(&self, recurse_depth: usize, reflected: bool) -> (step: PhotonStep)
        ensures
            step == Self::photon_step(recurse_depth, false, true, reflected),
    {
        self.calc_photon_internal(recurse_depth, false, true, reflected)
    }
}

/// A list holds a material that asks for caustic photons exactly when one
/// of its positions does.
pub proof fn any_wants_caustic_is_some_child(materials: Seq<Material>)
    ensures
        any_wants_caustic(materials) <==> exists|i: int|
            0 <= i < materials.len() && (#[trigger] materials[i]).wants_caustic(),
    decreases materials.len(),
{
    if materials.len() > 0 {
        let rest = materials.drop_last();
        any_wants_caustic_is_some_child(rest);
        if any_wants_caustic(materials) {
            if materials.last().wants_caustic() {
                assert(materials[materials.len() - 1].wants_caustic());
            } else {
                let i = choose|i: int| 0 <= i < rest.len() && (#[trigger] rest[i]).wants_caustic();
                assert(materials[i].wants_caustic());
            }
        }
        if exists|i: int| 0 <= i < materials.len() && (#[trigger] materials[i]).wants_caustic() {
            let i = choose|i: int|
                0 <= i < materials.len() && (#[trigger] materials[i]).wants_caustic();
            if i < rest.len() {
                assert(rest[i].wants_caustic());
            }
        }
    }
}

/// A mixture asks for caustic photons exactly when one of its children
/// does.
pub proof fn compound_wants_caustic_with_a_child(c: CompoundMaterial)
    ensures
        Material::Compound(c).wants_caustic() <==> exists|i: int|
            0 <= i < c.materials@.len() && (#[trigger] c.materials@[i]).wants_caustic(),
{
    any_wants_caustic_is_some_child(c.materials@);
}

/// A chain of recursive colour computations is bounded: if each level of
/// `depths` was started by the level before it, the chain that starts at
/// level 0 makes at most `MAX_RECURSE_DEPTH` recursive calls, whatever the
/// carried power.
pub proof fn recursion_is_bounded(depths: Seq<usize>, power_live: Seq<bool>)
    requires
        depths.len() > 0,
        depths[0] == 0,
        power_live.len() == depths.len(),
        forall|k: int|
            0 <= k < depths.len() - 1 ==> next_depth(#[trigger] depths[k], power_live[k]) == Some(
                depths[k + 1],
            ),
    ensures
        depths.len() - 1 <= MAX_RECURSE_DEPTH,
        forall|k: int| 0 <= k < depths.len() ==> #[trigger] depths[k] == k,
{
    assert forall|k: int| 0 <= k < depths.len() implies #[trigger] depths[k] == k by {
        chain_counts_levels(depths, power_live, k);
    }
    if depths.len() - 1 > MAX_RECURSE_DEPTH {
        let k = MAX_RECURSE_DEPTH as int;
        assert(depths[k] == k);
        assert(next_depth(depths[k], power_live[k]) == Some(depths[k + 1]));
    }
}

/// A chain of recursive photon computations is bounded in the same way, by
/// `MAX_PHOTON_RECURSE_DEPTH`.
pub proof fn photon_recursion_is_bounded(depths: Seq<usize>, power_live: Seq<bool>)
    requires
        depths.len() > 0,
        depths[0] == 0,
        power_live.len() == depths.len(),
        forall|k: int|
            0 <= k < depths.len() - 1 ==> next_photon_depth(#[trigger] depths[k], power_live[k])
                == Some(depths[k + 1]),
    ensures
        depths.len() - 1 <= MAX_PHOTON_RECURSE_DEPTH,
{
    if depths.len() - 1 > MAX_PHOTON_RECURSE_DEPTH {
        let k = MAX_PHOTON_RECURSE_DEPTH as int;
        photon_chain_counts_levels(depths, power_live, k);
        assert(next_photon_depth(depths[k], power_live[k]) == Some(depths[k + 1]));
    }
}

proof fn photon_chain_counts_levels(depths: Seq<usize>, power_live: Seq<bool>, k: int)
    requires
        depths.len() > 0,
        depths[0] == 0,
        power_live.len() == depths.len(),
        forall|k: int|
            0 <= k < depths.len() - 1 ==> next_photon_depth(#[trigger] depths[k], power_live[k])
                == Some(depths[k + 1]),
        0 <= k < depths.len(),
    ensures
        depths[k] == k,
    decreases k,
{
    if k > 0 {
        photon_chain_counts_levels(depths, power_live, k - 1);
        assert(next_photon_depth(depths[k - 1], power_live[k - 1]) == Some(depths[k]));
    }
}

/// A photon that stays inside a transparent object takes a bounded number
/// of steps: each step inside is one level deeper, and beyond the photon
/// depth limit the photon is lost.
pub proof fn photon_inside_goes_deeper(recurse_depth: usize, caustic: bool, reflected: bool)
    ensures
        match TransparentMaterial::photon_step(recurse_depth, true, caustic, reflected) {
            PhotonStep::Inside { recurse_depth: next, .. } => next == recurse_depth + 1
                && recurse_depth <= MAX_PHOTON_RECURSE_DEPTH && reflected,
            PhotonStep::Stop => recurse_depth > MAX_PHOTON_RECURSE_DEPTH,
            _ => !reflected && recurse_depth <= MAX_PHOTON_RECURSE_DEPTH,
        },
{
}

proof fn chain_counts_levels(depths: Seq<usize>, power_live: Seq<bool>, k: int)
    requires
        depths.len() > 0,
        depths[0] == 0,
        power_live.len() == depths.len(),
        forall|k: int|
            0 <= k < depths.len() - 1 ==> next_depth(#[trigger] depths[k], power_live[k]) == Some(
                depths[k + 1],
            ),
        0 <= k < depths.len(),
    ensures
        depths[k] == k,
    decreases k,
{
    if k > 0 {
        chain_counts_levels(depths, power_live, k - 1);
        assert(next_depth(depths[k - 1], power_live[k - 1]) == Some(depths[k]));
    }
}

} // verus!
