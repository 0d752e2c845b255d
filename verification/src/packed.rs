//! Bit-pack a longest line's distance and angle into a single 32-bit payload.
//!
//! The payload travels inside the bit pattern of a raster sample; the numeric
//! value of that sample is meaningless until unpacked. Big-endian view of the
//! 32-bit integer: bits 31..10 hold the distance in meters (22 bits), bits
//! 9..0 hold the angle (10 bits).

use vstd::prelude::*;

verus! {

/// The max and bitmask for a 22-bit distance: 4,194,303.
pub const U22_MAX: u32 = 0x3F_FFFF;

/// The max and bitmask for a 10-bit angle: 1023.
pub const U10_MAX: u32 = 0x3FF;

/// Line of sight data packed within 32 bits.
#[derive(Debug, Clone, Copy, PartialEq, Eq, Structural)]
pub struct LineOfSight(pub u32);

/// The packed payload holding `distance` in its upper 22 bits and `angle` in
/// its lower 10 bits.
pub open spec fn spec_pack(distance: u32, angle: u32) -> u32 {
    ((distance & 0x3F_FFFF) << 10) | (angle & 0x3FF)
}

/// The distance stored in a packed payload.
pub open spec fn spec_distance(bits: u32) -> u32 {
    (bits >> 10) & 0x3F_FFFF
}

/// The angle stored in a packed payload.
pub open spec fn spec_angle(bits: u32) -> u32 {
    bits & 0x3FF
}

impl LineOfSight {
    /// Pack a distance (meters) and an angle into one payload.
    pub fn new(distance: u32, angle: u16) -> (r: Self)
        requires
            distance <= 0x3F_FFFF,
            angle <= 0x3FF,
        ensures
            r.0 == spec_pack(distance, angle as u32),
            spec_distance(r.0) == distance,
            spec_angle(r.0) == angle as u32,
    {
        proof {
            lemma_pack_round_trip(distance, angle as u32);
        }
        LineOfSight(((distance & U22_MAX) << 10u32) | ((angle as u32) & U10_MAX))
    }

    /// Distance in meters from the point of view to the visible point.
    pub fn distance(self) -> (r: u32)
        ensures
            r == spec_distance(self.0),
            r <= 0x3F_FFFF,
    {
        proof {
            lemma_unpack_bounds(self.0);
        }
        (self.0 >> 10u32) & U22_MAX
    }

    /// The angle of the line of sight from the point of view.
    pub fn angle(self) -> (r: u16)
        ensures
            r as u32 == spec_angle(self.0),
            r <= 0x3FF,
    {
        proof {
            lemma_unpack_bounds(self.0);
        }
        (self.0 & U10_MAX) as u16
    }

    /// The raw payload. Meaningless unless unpacked.
    pub fn as_u32(self) -> (r: u32)
        ensures
            r == self.0,
    {
        self.0
    }
}

/// Law: packing any in-range distance and angle and then unpacking yields the
/// same distance and angle exactly.
pub proof fn lemma_pack_round_trip(distance: u32, angle: u32)
    requires
        distance <= 0x3F_FFFF,
        angle <= 0x3FF,
    ensures
        spec_distance(spec_pack(distance, angle)) == distance,
        spec_angle(spec_pack(distance, angle)) == angle,
{
    assert((((distance & 0x3F_FFFF) << 10) | (angle & 0x3FF)) >> 10 & 0x3F_FFFF == distance
        && (((distance & 0x3F_FFFF) << 10) | (angle & 0x3FF)) & 0x3FF == angle) by (bit_vector)
        requires
            distance <= 0x3F_FFFF,
            angle <= 0x3FF,
    ;
}

/// Unpacked fields always fit their declared widths.
pub proof fn lemma_unpack_bounds(bits: u32)
    ensures
        spec_distance(bits) <= 0x3F_FFFF,
        spec_angle(bits) <= 0x3FF,
{
    assert((bits >> 10) & 0x3F_FFFF <= 0x3F_FFFF && bits & 0x3FF <= 0x3FF) by (bit_vector);
}

/// Law: any payload re-packs to itself from its own unpacked fields, so the
/// packed form is canonical for its (distance, angle) pair.
pub proof fn lemma_unpack_pack_identity(bits: u32)
    ensures
        spec_pack(spec_distance(bits), spec_angle(bits)) == bits,
{
    assert(((((bits >> 10) & 0x3F_FFFF) & 0x3F_FFFF) << 10) | ((bits & 0x3FF) & 0x3FF) == bits)
        by (bit_vector);
}

} // verus!
