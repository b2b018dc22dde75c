//! The loudness of a sound.

use vstd::prelude::*;

verus! {

/// How loud a sound plays: a 64-bit IEEE 754 number, by convention from 0 to 1.
///
/// The number is carried as its bit pattern. Nothing here computes with it or
/// checks its range, which the remote service enforces; the pattern goes onto
/// the wire as the number it encodes.
#[derive(Clone, Copy, Debug, PartialEq, Eq, Structural, Hash)]
pub struct Volume {
    bits: u64,
}

impl Volume {
    /// The bit pattern of the number.
    pub closed spec fn bits(self) -> u64 {
        self.bits
    }

    /// The volume whose number has the bit pattern `bits`.
    pub fn from_bits(bits: u64) -> (r: Self)
        ensures
            r.bits() == bits,
    {
        Volume { bits }
    }

    /// The bit pattern of the number.
    pub fn to_bits(self) -> (bits: u64)
        ensures
            bits == self.bits(),
    {
        self.bits
    }

    /// Two volumes with the same bit pattern are the same volume.
    pub proof fn law_bits_identify(self, other: Volume)
        requires
            self.bits() == other.bits(),
        ensures
            self == other,
    {
    }
}

} // verus!
