//! The architecture-neutral permission and attribute set of a mapping.
//!
//! Every descriptor format is translated to and from this one vocabulary. It
//! is coarser than any hardware format: bits such as shareability or the
//! contiguous hint never appear here.

use vstd::prelude::*;

verus! {

/// A set of mapping attributes, one bit each.
#[derive(Clone, Copy, Debug, PartialEq, Eq, Structural)]
pub struct MemFlags {
    pub bits: u64,
}

impl MemFlags {
    /// The mapping can be read.
    pub const READ: u64 = 0x1;

    /// The mapping can be written.
    pub const WRITE: u64 = 0x2;

    /// Instructions can be fetched from the mapping.
    pub const EXECUTE: u64 = 0x4;

    /// The memory is a target of device DMA.
    pub const DMA: u64 = 0x8;

    /// The mapping covers device registers rather than normal memory.
    pub const IO: u64 = 0x10;

    /// The memory is the communication region shared with the driver.
    pub const COMM_REGION: u64 = 0x20;

    /// The region must be mapped with base pages only.
    pub const NO_HUGEPAGES: u64 = 0x100;

    /// The mapping is accessible at the lowest privilege level.
    pub const USER: u64 = 0x200;

    /// The memory is encrypted.
    pub const ENCRYPTED: u64 = 0x400;

    /// The mapping is not present.
    pub const NO_PRESENT: u64 = 0x800;

    /// Every defined bit.
    pub const ALL: u64 = 0xf3f;

    /// The set without any attribute.
    pub fn empty() -> (r: MemFlags)
        ensures
            r.bits == 0,
    {
        MemFlags { bits: 0 }
    }

    /// The set of every defined attribute.
    pub fn all() -> (r: MemFlags)
        ensures
            r.bits == Self::ALL,
    {
        MemFlags { bits: Self::ALL }
    }

    /// The set whose bits are the defined bits of `bits`; undefined bits are dropped.
    pub fn from_bits_truncate(bits: u64) -> (r: MemFlags)
        ensures
            r.bits == bits & Self::ALL,
    {
        MemFlags { bits: bits & Self::ALL }
    }

    /// The set with exactly the bits of `bits`, unless an undefined bit is among them.
    pub fn from_bits(bits: u64) -> (r: Option<MemFlags>)
        ensures
            r == if bits & !Self::ALL == 0 {
                Some(MemFlags { bits })
            } else {
                None::<MemFlags>
            },
    {
        if bits & !Self::ALL == 0 {
            Some(MemFlags { bits })
        } else {
            None
        }
    }

    /// The raw bits of the set.
    pub fn bits(&self) -> (r: u64)
        ensures
            r == self.bits,
    {
        self.bits
    }

    /// Whether every attribute of `other` is in `self`.
    pub open spec fn spec_contains(self, other: MemFlags) -> bool {
        self.bits & other.bits == other.bits
    }

    /// Whether `self` and `other` share an attribute.
    pub open spec fn spec_intersects(self, other: MemFlags) -> bool {
        self.bits & other.bits != 0
    }

    /// Whether the set holds no attribute.
    pub fn is_empty(&self) -> (r: bool)
        ensures
            r == (self.bits == 0),
    {
        self.bits == 0
    }

    /// Whether every attribute of `other` is in `self`.
    pub fn contains(&self, other: MemFlags) -> (r: bool)
        ensures
            r == self.spec_contains(other),
    {
        self.bits & other.bits == other.bits
    }

    /// Whether `self` and `other` share an attribute.
    pub fn intersects(&self, other: MemFlags) -> (r: bool)
        ensures
            r == self.spec_intersects(other),
    {
        self.bits & other.bits != 0
    }

    /// The attributes of either set.
    pub fn union(self, other: MemFlags) -> (r: MemFlags)
        ensures
            r.bits == self.bits | other.bits,
    {
        MemFlags { bits: self.bits | other.bits }
    }

    /// The attributes common to both sets.
    pub fn intersection(self, other: MemFlags) -> (r: MemFlags)
        ensures
            r.bits == self.bits & other.bits,
    {
        MemFlags { bits: self.bits & other.bits }
    }

    /// The attributes of `self` that are not in `other`.
    pub fn difference(self, other: MemFlags) -> (r: MemFlags)
        ensures
            r.bits == self.bits & !other.bits,
    {
        MemFlags { bits: self.bits & !other.bits }
    }

    /// Adds the attributes of `other`.
    pub fn insert(&mut self, other: MemFlags)
        ensures
            final(self).bits == old(self).bits | other.bits,
    {
        self.bits = self.bits | other.bits;
    }

    /// Removes the attributes of `other`.
    pub fn remove(&mut self, other: MemFlags)
        ensures
            final(self).bits == old(self).bits & !other.bits,
    {
        self.bits = self.bits & !other.bits;
    }
}

} // verus!
