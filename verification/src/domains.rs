//! Logical partitions within the device, allowing several applications to
//! share it: a 16-bit mask with one bit per domain.

use vstd::prelude::*;

verus! {

/// A set of domains: bit `n` grants access to domain `n + 1`.
#[derive(Copy, Clone, Debug, Eq, PartialEq, Structural, Hash)]
pub struct Domains {
    /// The underlying bit mask.
    pub bits: u16,
}

impl Domains {
    /// The mask with every domain set.
    pub fn all() -> (r: Self)
        ensures
            r.bits == 0xffffu16,
    {
        Domains { bits: 0xffff }
    }

    /// The domain set represented by a bit mask. Every 16-bit pattern is a
    /// valid set of the sixteen domains.
    pub fn from_bits(bits: u16) -> (r: Self)
        ensures
            r.bits == bits,
    {
        Domains { bits }
    }

    /// The underlying bit mask.
    pub fn bits(self) -> (r: u16)
        ensures
            r == self.bits,
    {
        self.bits
    }

    /// Whether the domain set contains every domain of `other`.
    pub fn contains(self, other: Domains) -> (r: bool)
        ensures
            r == (self.bits | other.bits == self.bits),
    {
        self.bits | other.bits == self.bits
    }
}

} // verus!
