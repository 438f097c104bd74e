//! Limits shared by the shading and photon-tracing recursions.

use vstd::prelude::*;

verus! {

/// Deepest level at which a colour computation may still recurse.
pub const MAX_RECURSE_DEPTH: usize = 10;

/// Deepest level at which a photon computation may still recurse.
pub const MAX_PHOTON_RECURSE_DEPTH: usize = 6;

/// Photon rays fired from each light for the global photon map.
pub const NUMBER_PHOTONS_PER_LIGHT: usize = 500_000;

/// Caustic rays fired from each light at each object that needs caustics.
pub const NUMBER_CAUSTICS_PER_LIGHT_PER_OBJ: usize = 100_000;

/// Depth key of the ray origin (distance zero).
pub const ORIGIN_DEPTH: i64 = 0;

/// Depth key of the tolerance below which a crossing counts as the surface
/// the ray has just left (the double 1.0e-6).
pub const EPSILON_DEPTH: i64 = 0x3EB0_C6F7_A0B5_ED8D;

} // verus!
