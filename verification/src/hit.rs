//! Crossings of a ray with a surface, and the integer keys that order them.

use vstd::prelude::*;

verus! {

/// A crossing of a ray with the surface of a primitive.
///
/// The numeric record of the crossing (position, normal, distance) stays with
/// the caller, who finds it again by `tag`. The library reads only the
/// fields below.
#[derive(Clone, Copy, Debug, PartialEq, Eq, Structural)]
pub struct Hit {
    /// The caller's handle for the numeric record of this crossing.
    pub tag: usize,
    /// Key of the signed distance from the ray origin: smaller is nearer,
    /// negative is behind the origin.
    pub depth: i64,
    /// Index of the object the crossed primitive came from.
    pub obj_index: usize,
    /// True if the ray enters the solid here, false if it leaves it.
    pub correct_dir: bool,
    /// Index, in the tree of a composite solid, of the leaf that was crossed.
    pub csg_index: usize,
    /// True if the surface normal is to be taken reversed.
    pub reversed: bool,
}

impl Hit {
    /// The crossing with direction flag and normal both reversed.
    pub open spec fn flipped(self) -> Hit {
        Hit { correct_dir: !self.correct_dir, reversed: !self.reversed, ..self }
    }

    /// A crossing as a primitive reports it: the normal is not reversed.
    pub fn new(tag: usize, depth: i64, correct_dir: bool, obj_index: usize, csg_index: usize) -> (h:
        Hit)
        ensures
            h == (Hit { tag, depth, obj_index, correct_dir, csg_index, reversed: false }),
    {
        Hit { tag, depth, obj_index, correct_dir, csg_index, reversed: false }
    }

    /// The caller's handle for the numeric record.
    pub fn get_tag(&self) -> (t: usize)
        ensures
            t == self.tag,
    {
        self.tag
    }

    /// Index of the object that was crossed.
    pub fn get_object_index(&self) -> (i: usize)
        ensures
            i == self.obj_index,
    {
        self.obj_index
    }

    /// Depth key of the signed distance along the ray.
    pub fn get_distance(&self) -> (d: i64)
        ensures
            d == self.depth,
    {
        self.depth
    }

    /// True if the ray enters the solid at this crossing.
    pub fn get_dir(&self) -> (d: bool)
        ensures
            d == self.correct_dir,
    {
        self.correct_dir
    }

    /// Index of the crossed leaf in the tree of its composite solid.
    pub fn get_csg_index(&self) -> (i: usize)
        ensures
            i == self.csg_index,
    {
        self.csg_index
    }

    /// True if the normal is to be taken reversed.
    pub fn is_reversed(&self) -> (r: bool)
        ensures
            r == self.reversed,
    {
        self.reversed
    }

    /// Reverses the crossing: an entry becomes an exit and the normal turns
    /// round. Composite solids use this for the surface of a carved-out part.
    pub fn flip(&mut self)
        ensures
            *final(self) == old(self).flipped(),
    {
        self.correct_dir = !self.correct_dir;
        self.reversed = !self.reversed;
    }
}

/// A list of crossings is ordered when depth never decreases along it.
pub open spec fn ordered_by_depth(hits: Seq<Hit>) -> bool {
    forall|i: int, j: int| 0 <= i <= j < hits.len() ==> hits[i].depth <= hits[j].depth
}

/// Sign bit of an IEEE 754 double.
pub const SIGN_BIT: u64 = 0x8000_0000_0000_0000;

/// Magnitude bits of positive infinity; larger magnitudes are not numbers.
pub const INFINITY_BITS: u64 = 0x7FF0_0000_0000_0000;

/// The depth key of the double with the given bit pattern: its magnitude
/// bits, negated when the sign bit is set. Keys compare as the doubles do,
/// and both zeros share the key 0. A pattern that is not a number has no
/// key.
pub open spec fn depth_of_bits(bits: u64) -> Option<int> {
    let magnitude = if bits >= SIGN_BIT { bits - SIGN_BIT } else { bits as int };
    if magnitude > INFINITY_BITS {
        None
    } else if bits >= SIGN_BIT {
        Some(-magnitude)
    } else {
        Some(magnitude)
    }
}

/// Computes the depth key of a distance from the bit pattern of the double.
pub fn depth_from_bits(bits: u64) -> (d: Option<i64>)
    ensures
        d matches Some(k) ==> depth_of_bits(bits) == Some(k as int),
        d is None ==> depth_of_bits(bits) is None,
{
    if bits >= SIGN_BIT {
        let magnitude: u64 = bits - SIGN_BIT;
        if magnitude > INFINITY_BITS {
            None
        } else {
            let m: i64 = magnitude as i64;
            Some(-m)
        }
    } else if bits > INFINITY_BITS {
        None
    } else {
        Some(bits as i64)
    }
}

/// Keys order distances: among doubles of one sign a larger magnitude lies
/// farther from zero, and every negative double lies below every positive
/// one.
pub proof fn depth_key_order(a: u64, b: u64)
    requires
        depth_of_bits(a) is Some,
        depth_of_bits(b) is Some,
    ensures
        a < SIGN_BIT && b < SIGN_BIT ==> (depth_of_bits(a)->0 < depth_of_bits(b)->0 <==> a < b),
        a >= SIGN_BIT && b >= SIGN_BIT ==> (depth_of_bits(a)->0 < depth_of_bits(b)->0 <==> a > b),
        a >= SIGN_BIT && b < SIGN_BIT ==> depth_of_bits(a)->0 <= depth_of_bits(b)->0,
        depth_of_bits(a) == depth_of_bits(b) <==> (a == b || (a % SIGN_BIT == 0 && b % SIGN_BIT
            == 0)),
{
}

} // verus!
