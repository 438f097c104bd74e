//! Whether the light of a lamp reaches a point: the hint that the photon
//! map gives, and the shadow ray that settles what the hint leaves open.

use vstd::prelude::*;
use crate::constants::ORIGIN_DEPTH;
use crate::hit::Hit;
use crate::photon::{count_photons, count_sent, Photon, PhotonType};

verus! {

/// Photons of one kind that must lie near a point, with none of the other
/// kind, before they are believed: more than this many.
pub const PHOTON_QUORUM: usize = 2;

/// What the photons near a point say of one light.
#[derive(Clone, Copy, Debug, PartialEq, Eq, Structural)]
pub enum Hint {
    /// Shadow photons only: the point is dark.
    Dark,
    /// Direct photons only: the point is lit.
    Lit,
    /// Neither: a shadow ray has to tell.
    Unsure,
}

/// The hint of given numbers of shadow and direct photons: dark with more
/// than the quorum of shadow photons and no direct one, lit with more than
/// the quorum of direct photons and no shadow one, unsure otherwise.
pub open spec fn hint_of(num_shadow: nat, num_direct: nat) -> Hint {
    if num_shadow > PHOTON_QUORUM && num_direct == 0 {
        Hint::Dark
    } else if num_direct > PHOTON_QUORUM && num_shadow == 0 {
        Hint::Lit
    } else {
        Hint::Unsure
    }
}

/// Whether some crossing of the shadow ray hides the light: one at which
/// the ray enters a solid past the light and before `limit`, the depth of
/// the point less a tolerance.
pub open spec fn hides(hits: Seq<Hit>, limit: i64) -> bool {
    exists|i: int|
        0 <= i < hits.len() && (#[trigger] hits[i]).correct_dir && hits[i].depth > ORIGIN_DEPTH
            && hits[i].depth < limit
}

/// Whether some crossing lies before `limit`.
pub open spec fn reaches_before(hits: Seq<Hit>, limit: i64) -> bool {
    exists|i: int| 0 <= i < hits.len() && (#[trigger] hits[i]).depth < limit
}

/// Reads the hint that the photons found near a point give of light
/// `light_index`.
pub fn photon_hint(photons: &Vec<Photon>, light_index: usize) -> (hint: Hint)
    ensures
        hint == hint_of(
            count_sent(photons@, PhotonType::Shadow, light_index),
            count_sent(photons@, PhotonType::Direct, light_index),
        ),
{
    let num_direct = count_photons(photons, PhotonType::Direct, light_index);
    let num_shadow = count_photons(photons, PhotonType::Shadow, light_index);
    if num_shadow > PHOTON_QUORUM && num_direct == 0 {
        Hint::Dark
    } else if num_direct > PHOTON_QUORUM && num_shadow == 0 {
        Hint::Lit
    } else {
        Hint::Unsure
    }
}

/// Tells whether the crossings of a shadow ray from a point light hide the
/// light from the point at depth `limit`.
pub fn occluded(hits: &Vec<Hit>, limit: i64) -> (b: bool)
    ensures
        b == hides(hits@, limit),
{
    let mut i: usize = 0;
    while i < hits.len()
        invariant
            i <= hits.len(),
            forall|k: int|
                0 <= k < i ==> !((#[trigger] hits@[k]).correct_dir && hits@[k].depth > ORIGIN_DEPTH
                    && hits@[k].depth < limit),
        decreases hits.len() - i,
    {
        let h: Hit = hits[i];
        if h.correct_dir && h.depth > ORIGIN_DEPTH && h.depth < limit {
            return true;
        }
        i += 1;
    }
    false
}

/// Tells whether a point is dark under a point light: it is if the photons
/// say so, or if they leave it open and the shadow ray is hidden.
pub fn point_light_is_dark(photons: &Vec<Photon>, light_index: usize, hits: &Vec<Hit>, limit: i64)
    -> (dark: bool)
    ensures
        dark == match hint_of(
            count_sent(photons@, PhotonType::Shadow, light_index),
            count_sent(photons@, PhotonType::Direct, light_index),
        ) {
            Hint::Dark => true,
            Hint::Lit => false,
            Hint::Unsure => hides(hits@, limit),
        },
{
    match photon_hint(photons, light_index) {
        Hint::Dark => true,
        Hint::Lit => false,
        Hint::Unsure => occluded(hits, limit),
    }
}

/// Tells whether a point is dark under a directional light: it is if any
/// crossing of the ray along the light's direction lies before `limit`, a
/// tolerance behind the point.
pub fn directional_light_is_dark(hits: &Vec<Hit>, limit: i64) -> (dark: bool)
    ensures
        dark == reaches_before(hits@, limit),
{
    let mut i: usize = 0;
    while i < hits.len()
        invariant
            i <= hits.len(),
            forall|k: int| 0 <= k < i ==> !((#[trigger] hits@[k]).depth < limit),
        decreases hits.len() - i,
    {
        if hits[i].depth < limit {
            return true;
        }
        i += 1;
    }
    false
}

} // verus!
