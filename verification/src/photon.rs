//! The discrete record of a photon: what kind it is, which light sent it and
//! which object it landed on. Where it lies and what colour it carries is
//! kept by the caller beside this record.

use vstd::prelude::*;

verus! {

/// The kinds of photon that the two photon maps hold.
#[derive(Clone, Copy, Debug, PartialEq, Eq, Structural)]
pub enum PhotonType {
    /// Left behind an occluder: the light does not reach this point.
    Shadow,
    /// Left where a ray from the light first meets a surface.
    Direct,
    /// Left by light that has bounced at least once.
    Indirect,
    /// Left by light that has passed through a transparent object.
    Caustic,
}

/// A photon as the discrete logic sees it.
#[derive(Clone, Copy, Debug, PartialEq, Eq, Structural)]
pub struct Photon {
    pub p_type: PhotonType,
    pub light_index: usize,
    pub obj: usize,
}

impl Photon {
    /// A shadow photon of light `light_index` on object `obj`.
    pub fn new_shadow(light_index: usize, obj: usize) -> (p: Photon)
        ensures
            p == (Photon { p_type: PhotonType::Shadow, light_index, obj }),
    {
        Photon { p_type: PhotonType::Shadow, light_index, obj }
    }

    /// A direct photon of light `light_index` on object `obj`.
    pub fn new_direct(light_index: usize, obj: usize) -> (p: Photon)
        ensures
            p == (Photon { p_type: PhotonType::Direct, light_index, obj }),
    {
        Photon { p_type: PhotonType::Direct, light_index, obj }
    }

    /// An indirect photon of light `light_index` on object `obj`.
    pub fn new_indirect(light_index: usize, obj: usize) -> (p: Photon)
        ensures
            p == (Photon { p_type: PhotonType::Indirect, light_index, obj }),
    {
        Photon { p_type: PhotonType::Indirect, light_index, obj }
    }

    /// A caustic photon of light `light_index`, sent through object `obj`.
    pub fn new_caustic(light_index: usize, obj: usize) -> (p: Photon)
        ensures
            p == (Photon { p_type: PhotonType::Caustic, light_index, obj }),
    {
        Photon { p_type: PhotonType::Caustic, light_index, obj }
    }

    pub fn is_shadow(&self) -> (b: bool)
        ensures
            b == (self.p_type == PhotonType::Shadow),
    {
        match self.p_type {
            PhotonType::Shadow => true,
            _ => false,
        }
    }

    pub fn is_direct(&self) -> (b: bool)
        ensures
            b == (self.p_type == PhotonType::Direct),
    {
        match self.p_type {
            PhotonType::Direct => true,
            _ => false,
        }
    }

    pub fn get_light_index(&self) -> (i: usize)
        ensures
            i == self.light_index,
    {
        self.light_index
    }

    pub fn get_type(&self) -> (t: PhotonType)
        ensures
            t == self.p_type,
    {
        self.p_type
    }

    pub fn get_obj(&self) -> (o: usize)
        ensures
            o == self.obj,
    {
        self.obj
    }
}

/// The number of photons of the given kind that light `light_index` sent.
pub open spec fn count_sent(photons: Seq<Photon>, p_type: PhotonType, light_index: usize) -> nat
    decreases photons.len(),
{
    if photons.len() == 0 {
        0
    } else {
        let rest = count_sent(photons.drop_last(), p_type, light_index);
        if photons.last().p_type == p_type && photons.last().light_index == light_index {
            rest + 1
        } else {
            rest
        }
    }
}

/// Counts the photons of the given kind that light `light_index` sent.
pub fn count_photons(photons: &Vec<Photon>, p_type: PhotonType, light_index: usize) -> (n: usize)
    ensures
        n == count_sent(photons@, p_type, light_index),
{
    let mut n: usize = 0;
    let mut i: usize = 0;
    while i < photons.len()
        invariant
            i <= photons.len(),
            n <= i,
            n == count_sent(photons@.take(i as int), p_type, light_index),
        decreases photons.len() - i,
    {
        let p: Photon = photons[i];
        proof {
            assert(photons@.take(i + 1).drop_last() == photons@.take(i as int));
        }
        if p.p_type == p_type && p.light_index == light_index {
            n += 1;
        }
        i += 1;
    }
    proof {
        assert(photons@.take(photons@.len() as int) == photons@);
    }
    n
}

} // verus!
