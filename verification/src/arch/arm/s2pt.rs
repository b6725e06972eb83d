//! Stage-2 translation of VMSAv8-64: the descriptor format with which the
//! host confines a guest's view of physical memory, its mapping to and from
//! [`MemFlags`], and the instruction sequences that activate a stage-2 root
//! table.
//!
//! Stage 2 has independent read and write permission bits and no notion of
//! a user mapping. Attribute sets that survive encoding and decoding
//! unchanged are exactly "not present" alone and every subset of read,
//! write and execute. The device attribute selects the memory type and is
//! read back with [`DescriptorAttr::mem_type`].

use vstd::prelude::*;
use vstd::std_specs::convert::FromSpecImpl;
use crate::memory::addr::{PhysAddr, VirtAddr};
use crate::memory::flags::MemFlags;
use crate::memory::page_table::{Level4PageTableImmut, Level4PageTableUnlocked};
use crate::memory::paging::{GenericPTE, PageTableLevel, PagingError, PagingInstr, PagingOp, PagingResult};

verus! {

/// Attribute fields of a stage-2 block, page or table descriptor.
#[derive(Clone, Copy, Debug, PartialEq, Eq, Structural)]
pub struct DescriptorAttr {
    pub bits: u64,
}

/// The memory types that stage-2 descriptors name directly in their
/// attribute field.
#[derive(Clone, Copy, Debug, PartialEq, Eq, Structural)]
pub enum MemType {
    Device,
    Normal,
}

/// Bits of a descriptor that hold the output address: bits 12 to 47.
pub const PHYS_ADDR_MASK: u64 = 0x0000_ffff_ffff_f000;

impl DescriptorAttr {
    /// Whether the descriptor is valid.
    pub const VALID: u64 = 0x1;

    /// The descriptor points to a table or maps a 4 KiB page, not a block.
    pub const NON_BLOCK: u64 = 0x2;

    /// Memory attributes field.
    pub const ATTR: u64 = 0x3c;

    /// Access permission: readable at EL0 and EL1.
    pub const S2AP_R: u64 = 0x40;

    /// Access permission: writable at EL0 and EL1.
    pub const S2AP_W: u64 = 0x80;

    /// Shareability: inner shareable (otherwise outer shareable).
    pub const INNER: u64 = 0x100;

    /// Shareability: inner or outer shareable (otherwise non-shareable).
    pub const SHAREABLE: u64 = 0x200;

    /// The access flag.
    pub const AF: u64 = 0x400;

    /// Sixteen adjacent entries map contiguous memory.
    pub const CONTIGUOUS: u64 = 0x10_0000_0000_0000;

    /// Low bit of the execute-never field.
    pub const XN_0: u64 = 0x20_0000_0000_0000;

    /// High bit of the execute-never field.
    pub const XN_1: u64 = 0x40_0000_0000_0000;

    /// The execute-never field.
    pub const XN: u64 = 0x60_0000_0000_0000;

    /// PXN limit for subsequent levels of lookup.
    pub const PXN_TABLE: u64 = 0x0800_0000_0000_0000;

    /// XN limit for subsequent levels of lookup.
    pub const XN_TABLE: u64 = 0x1000_0000_0000_0000;

    /// Subsequent levels of lookup do not permit access at EL0.
    pub const AP_NO_EL0_TABLE: u64 = 0x2000_0000_0000_0000;

    /// Subsequent levels of lookup do not permit write access.
    pub const AP_NO_WRITE_TABLE: u64 = 0x4000_0000_0000_0000;

    /// Security state of subsequent levels of lookup.
    pub const NS_TABLE: u64 = 0x8000_0000_0000_0000;

    /// Every defined attribute bit.
    pub const ALL: u64 = 0xf870_0000_0000_07ff;

    /// The attribute field, in place.
    pub const ATTR_INDEX_MASK: u64 = 0x3c;

    /// Attribute bits of device memory: attribute 1.
    pub const DEVICE_MEMORY: u64 = 0x4;

    /// Attribute bits of normal memory: attribute 15, inner shareable.
    pub const NORMAL_MEMORY: u64 = 0x33c;

    /// The attribute set with the defined bits of `bits`.
    pub fn from_bits_truncate(bits: u64) -> (r: DescriptorAttr)
        ensures
            r.bits == bits & Self::ALL,
    {
        DescriptorAttr { bits: bits & Self::ALL }
    }

    /// The raw bits of the set.
    pub fn bits(&self) -> (r: u64)
        ensures
            r == self.bits,
    {
        self.bits
    }

    /// Whether every bit of `mask` is set.
    pub fn contains(&self, mask: u64) -> (r: bool)
        ensures
            r == (self.bits & mask == mask),
    {
        self.bits & mask == mask
    }

    /// Whether some bit of `mask` is set.
    pub fn intersects(&self, mask: u64) -> (r: bool)
        ensures
            r == (self.bits & mask != 0),
    {
        self.bits & mask != 0
    }

    /// Sets the bits of `mask`.
    pub fn insert(&mut self, mask: u64)
        ensures
            final(self).bits == old(self).bits | mask,
    {
        self.bits = self.bits | mask;
    }

    /// Clears the bits of `mask`.
    pub fn remove(&mut self, mask: u64)
        ensures
            final(self).bits == old(self).bits & !mask,
    {
        self.bits = self.bits & !mask;
    }

    /// The attribute bits that select `mem_type`: its attribute value, and
    /// inner-shareable for normal memory.
    pub open spec fn spec_from_mem_type(mem_type: MemType) -> u64 {
        match mem_type {
            MemType::Device => Self::DEVICE_MEMORY,
            MemType::Normal => Self::NORMAL_MEMORY,
        }
    }

    /// The attribute field of the descriptor, as a number.
    pub open spec fn spec_attr_index(self) -> u64 {
        (self.bits & Self::ATTR_INDEX_MASK) >> 2
    }

    /// The attribute bits that select `mem_type`.
    pub fn from_mem_type(mem_type: MemType) -> (r: DescriptorAttr)
        ensures
            r.bits == Self::spec_from_mem_type(mem_type),
            r.spec_attr_index() == match mem_type {
                MemType::Device => 1u64,
                MemType::Normal => 15u64,
            },
    {
        proof {
            lemma_mem_type_bits();
        }
        let index: u64 = match mem_type {
            MemType::Device => 1,
            MemType::Normal => 15,
        };
        let mut bits: u64 = index << 2;
        if matches!(mem_type, MemType::Normal) {
            bits = bits | (Self::INNER | Self::SHAREABLE);
        }
        Self::from_bits_truncate(bits)
    }

    /// The memory type that the attribute field selects, or an error for a
    /// value that this codec never assigns.
    pub fn mem_type_checked(&self) -> (r: PagingResult<MemType>)
        ensures
            r == if self.spec_attr_index() == 1 {
                Ok::<MemType, PagingError>(MemType::Device)
            } else if self.spec_attr_index() == 15 {
                Ok::<MemType, PagingError>(MemType::Normal)
            } else {
                Err::<MemType, PagingError>(PagingError::UnknownMemType)
            },
    {
        let idx: u64 = (self.bits & Self::ATTR_INDEX_MASK) >> 2;
        if idx == 1 {
            Ok(MemType::Device)
        } else if idx == 15 {
            Ok(MemType::Normal)
        } else {
            Err(PagingError::UnknownMemType)
        }
    }

    /// The memory type that the attribute field selects. The value must be
    /// one that this codec assigns.
    pub fn mem_type(&self) -> (r: MemType)
        requires
            self.spec_attr_index() == 1 || self.spec_attr_index() == 15,
        ensures
            r == if self.spec_attr_index() == 1 {
                MemType::Device
            } else {
                MemType::Normal
            },
    {
        let idx: u64 = (self.bits & Self::ATTR_INDEX_MASK) >> 2;
        if idx == 1 {
            MemType::Device
        } else {
            MemType::Normal
        }
    }
}

proof fn lemma_mem_type_bits()
    by (bit_vector)
    ensures
        ((1u64 << 2) & 0xf870_0000_0000_07ffu64) == 0x4,
        (((15u64 << 2) | (0x100u64 | 0x200u64)) & 0xf870_0000_0000_07ffu64) == 0x33c,
        (0x4u64 & 0x3cu64) >> 2 == 1,
        (0x33cu64 & 0x3cu64) >> 2 == 15,
{
}

/// The attribute set that descriptor bits decode to.
///
/// An invalid descriptor is "not present" and nothing else. A valid one is
/// readable if its read bit is set, writable if its write bit is set, and
/// executable if its execute-never field is zero.
pub open spec fn spec_decode(attr: u64) -> u64 {
    if attr & DescriptorAttr::VALID != DescriptorAttr::VALID {
        MemFlags::NO_PRESENT
    } else {
        (if attr & DescriptorAttr::S2AP_R == DescriptorAttr::S2AP_R {
            MemFlags::READ
        } else {
            0
        }) | (if attr & DescriptorAttr::S2AP_W == DescriptorAttr::S2AP_W {
            MemFlags::WRITE
        } else {
            0
        }) | (if attr & DescriptorAttr::XN == 0 {
            MemFlags::EXECUTE
        } else {
            0
        })
    }
}

/// The descriptor bits that an attribute set encodes to.
///
/// A present mapping is valid with its access flag set. Device memory uses
/// attribute 1; everything else is normal, inner-shareable memory with
/// attribute 15. Read and write permission set their bits. A mapping that
/// is not executable has the high bit of its execute-never field set, which
/// forbids execution at every exception level.
pub open spec fn spec_encode(flags: u64) -> u64 {
    (if flags & MemFlags::NO_PRESENT != MemFlags::NO_PRESENT {
        DescriptorAttr::VALID | DescriptorAttr::AF
    } else {
        0
    }) | (if flags & MemFlags::IO == MemFlags::IO {
        DescriptorAttr::DEVICE_MEMORY
    } else {
        DescriptorAttr::NORMAL_MEMORY
    }) | (if flags & MemFlags::READ == MemFlags::READ {
        DescriptorAttr::S2AP_R
    } else {
        0
    }) | (if flags & MemFlags::WRITE == MemFlags::WRITE {
        DescriptorAttr::S2AP_W
    } else {
        0
    }) | (if flags & MemFlags::EXECUTE != MemFlags::EXECUTE {
        DescriptorAttr::XN_1
    } else {
        0
    })
}

/// Whether an attribute set survives encoding and decoding unchanged: it is
/// "not present" alone, or a subset of read, write and execute.
pub open spec fn spec_lossless(flags: u64) -> bool {
    flags == MemFlags::NO_PRESENT || flags & !0x7u64 == 0
}

impl From<DescriptorAttr> for MemFlags {
    fn from(attr: DescriptorAttr) -> (flags: MemFlags) {
        if !attr.contains(DescriptorAttr::VALID) {
            MemFlags { bits: MemFlags::NO_PRESENT }
        } else {
            let read: u64 = if attr.contains(DescriptorAttr::S2AP_R) {
                MemFlags::READ
            } else {
                0
            };
            let write: u64 = if attr.contains(DescriptorAttr::S2AP_W) {
                MemFlags::WRITE
            } else {
                0
            };
            let execute: u64 = if !attr.intersects(DescriptorAttr::XN) {
                MemFlags::EXECUTE
            } else {
                0
            };
            MemFlags { bits: read | write | execute }
        }
    }
}

impl FromSpecImpl<DescriptorAttr> for MemFlags {
    open spec fn obeys_from_spec() -> bool {
        true
    }

    open spec fn from_spec(attr: DescriptorAttr) -> MemFlags {
        MemFlags { bits: spec_decode(attr.bits) }
    }
}

impl From<MemFlags> for DescriptorAttr {
    fn from(flags: MemFlags) -> (attr: DescriptorAttr) {
        let valid: u64 = if !flags.contains(MemFlags { bits: MemFlags::NO_PRESENT }) {
            DescriptorAttr::VALID | DescriptorAttr::AF
        } else {
            0
        };
        let memory = if flags.contains(MemFlags { bits: MemFlags::IO }) {
            DescriptorAttr::from_mem_type(MemType::Device)
        } else {
            DescriptorAttr::from_mem_type(MemType::Normal)
        };
        let read: u64 = if flags.contains(MemFlags { bits: MemFlags::READ }) {
            DescriptorAttr::S2AP_R
        } else {
            0
        };
        let write: u64 = if flags.contains(MemFlags { bits: MemFlags::WRITE }) {
            DescriptorAttr::S2AP_W
        } else {
            0
        };
        let execute_never: u64 = if !flags.contains(MemFlags { bits: MemFlags::EXECUTE }) {
            DescriptorAttr::XN_1
        } else {
            0
        };
        DescriptorAttr { bits: valid | memory.bits() | read | write | execute_never }
    }
}

impl FromSpecImpl<MemFlags> for DescriptorAttr {
    open spec fn obeys_from_spec() -> bool {
        true
    }

    open spec fn from_spec(flags: MemFlags) -> DescriptorAttr {
        DescriptorAttr { bits: spec_encode(flags.bits) }
    }
}

/// Decoding what was encoded gives back every lossless attribute set, and
/// for any attribute set the memory type that was asked for. An encoding
/// never marks a block or table and never touches the address field.
pub proof fn lemma_round_trip(flags: u64)
    by (bit_vector)
    ensures
        spec_lossless(flags) ==> spec_decode(spec_encode(flags)) == flags,
        (spec_encode(flags) & 0x3c) >> 2 == (if flags & 0x10 == 0x10 {
            1u64
        } else {
            15u64
        }),
        spec_encode(flags) & 0x2 == 0,
        spec_encode(flags) & 0x0000_ffff_ffff_f000 == 0,
        spec_encode(flags) & 0xf870_0000_0000_07ff == spec_encode(flags),
        spec_encode(flags) != 0,
        (spec_decode(spec_encode(flags)) == 0x800) <==> (flags & 0x800 == 0x800),
{
}

/// A decoded attribute set is lossless, so decoding is a left inverse of
/// encoding on everything that decoding can produce.
pub proof fn lemma_decode_is_lossless(attr: u64)
    by (bit_vector)
    ensures
        spec_lossless(spec_decode(attr)),
        spec_decode(attr & 0xf870_0000_0000_07ff) == spec_decode(attr),
{
}

/// One stage-2 descriptor: a block, page or table entry as the hardware
/// table walker reads it.
#[derive(Clone, Copy, Debug, PartialEq, Eq, Structural)]
pub struct PTEntry(pub u64);

impl PTEntry {
    /// The descriptor with the given raw bits.
    pub fn from_raw(bits: u64) -> (e: PTEntry)
        ensures
            e.0 == bits,
    {
        PTEntry(bits)
    }

    /// The raw bits of the descriptor.
    pub fn bits(&self) -> (r: u64)
        ensures
            r == self.0,
    {
        self.0
    }

    /// The attribute bits of the descriptor.
    pub fn attr(&self) -> (r: DescriptorAttr)
        ensures
            r.bits == self.0 & DescriptorAttr::ALL,
    {
        DescriptorAttr::from_bits_truncate(self.0)
    }
}

proof fn lemma_observers(raw: u64)
    by (bit_vector)
    ensures
        ((raw & 0xf870_0000_0000_07ff) & 0x2 == 0x2) <==> (raw & 0x2 != 0),
        spec_decode(raw & 0xf870_0000_0000_07ff) == spec_decode(raw),
        spec_decode(0) == 0x800,
        0u64 & 0x1 == 0,
{
}

proof fn lemma_set_addr_bits(raw: u64, paddr: u64)
    by (bit_vector)
    ensures
        spec_decode((raw & !0x0000_ffff_ffff_f000u64) | (paddr & 0x0000_ffff_ffff_f000))
            == spec_decode(raw),
        ((raw & !0x0000_ffff_ffff_f000u64) | (paddr & 0x0000_ffff_ffff_f000)) & 0x1 == raw & 0x1,
        ((raw & !0x0000_ffff_ffff_f000u64) | (paddr & 0x0000_ffff_ffff_f000)) & 0x2 == raw & 0x2,
        ((raw & !0x0000_ffff_ffff_f000u64) | (paddr & 0x0000_ffff_ffff_f000)) & 0x400 == raw
            & 0x400,
        paddr & !0x0000_ffff_ffff_f000u64 == 0 ==> ((raw & !0x0000_ffff_ffff_f000u64) | (paddr
            & 0x0000_ffff_ffff_f000)) & 0x0000_ffff_ffff_f000 == paddr,
{
}

proof fn lemma_set_flags_bits(raw: u64, flags: u64)
    by (bit_vector)
    ensures
        ((spec_encode(flags) & !0x2u64) | (raw & 0x0000_ffff_ffff_f000)) & 0x0000_ffff_ffff_f000
            == raw & 0x0000_ffff_ffff_f000,
        ((spec_encode(flags) | 0x2u64) | (raw & 0x0000_ffff_ffff_f000)) & 0x0000_ffff_ffff_f000
            == raw & 0x0000_ffff_ffff_f000,
        (spec_encode(flags) & !0x2u64) | (raw & 0x0000_ffff_ffff_f000) != 0,
        (spec_encode(flags) | 0x2u64) | (raw & 0x0000_ffff_ffff_f000) != 0,
        ((spec_encode(flags) & !0x2u64) | (raw & 0x0000_ffff_ffff_f000)) & 0x2 == 0,
        ((spec_encode(flags) | 0x2u64) | (raw & 0x0000_ffff_ffff_f000)) & 0x2 != 0,
        (((spec_encode(flags) & !0x2u64) | (raw & 0x0000_ffff_ffff_f000)) & 0x1 != 0) <==> (flags
            & 0x800 == 0),
        (((spec_encode(flags) | 0x2u64) | (raw & 0x0000_ffff_ffff_f000)) & 0x1 != 0) <==> (flags
            & 0x800 == 0),
        spec_lossless(flags) ==> spec_decode(
            (spec_encode(flags) & !0x2u64) | (raw & 0x0000_ffff_ffff_f000),
        ) == flags,
        spec_lossless(flags) ==> spec_decode(
            (spec_encode(flags) | 0x2u64) | (raw & 0x0000_ffff_ffff_f000),
        ) == flags,
{
}

proof fn lemma_set_table_bits(paddr: u64)
    by (bit_vector)
    ensures
        (paddr & 0x0000_ffff_ffff_f000) | 0x2 | 0x1 != 0,
        (paddr & 0x0000_ffff_ffff_f000) | 0x2 | 0x0 != 0,
        ((paddr & 0x0000_ffff_ffff_f000) | 0x2 | 0x1) & 0x2 != 0,
        ((paddr & 0x0000_ffff_ffff_f000) | 0x2 | 0x0) & 0x2 != 0,
        ((paddr & 0x0000_ffff_ffff_f000) | 0x2 | 0x1) & 0x1 != 0,
        ((paddr & 0x0000_ffff_ffff_f000) | 0x2 | 0x0) & 0x1 == 0,
        paddr & !0x0000_ffff_ffff_f000u64 == 0 ==> ((paddr & 0x0000_ffff_ffff_f000) | 0x2 | 0x1)
            & 0x0000_ffff_ffff_f000 == paddr,
        paddr & !0x0000_ffff_ffff_f000u64 == 0 ==> ((paddr & 0x0000_ffff_ffff_f000) | 0x2 | 0x0)
            & 0x0000_ffff_ffff_f000 == paddr,
{
}

proof fn lemma_set_bits_bits(raw: u64)
    by (bit_vector)
    ensures
        (raw | 0x1) & 0x1 != 0,
        (raw | 0x1) & 0x0000_ffff_ffff_f000 == raw & 0x0000_ffff_ffff_f000,
        (raw | 0x1) & 0x2 == raw & 0x2,
        (raw | 0x1) & 0x400 == raw & 0x400,
        (raw & !0x1u64) & 0x1 == 0,
        (raw & !0x1u64) & 0x0000_ffff_ffff_f000 == raw & 0x0000_ffff_ffff_f000,
        (raw & !0x1u64) & 0x2 == raw & 0x2,
        (raw & !0x1u64) & 0x400 == raw & 0x400,
        spec_decode(raw & !0x1u64) == 0x800,
        (raw & !0x400u64) & 0x400 == 0,
        (raw & !0x400u64) & 0x0000_ffff_ffff_f000 == raw & 0x0000_ffff_ffff_f000,
        (raw & !0x400u64) & 0x2 == raw & 0x2,
        (raw & !0x400u64) & 0x1 == raw & 0x1,
        spec_decode(raw & !0x400u64) == spec_decode(raw),
{
}

impl GenericPTE for PTEntry {
    open spec fn spec_addr(self) -> PhysAddr {
        self.0 & PHYS_ADDR_MASK
    }

    open spec fn spec_flags(self) -> MemFlags {
        MemFlags { bits: spec_decode(self.0) }
    }

    open spec fn spec_is_unused(self) -> bool {
        self.0 == 0
    }

    open spec fn spec_is_present(self) -> bool {
        self.0 & DescriptorAttr::VALID != 0
    }

    open spec fn spec_is_leaf(self) -> bool {
        self.0 & DescriptorAttr::NON_BLOCK == 0
    }

    open spec fn spec_is_young(self) -> bool {
        self.0 & DescriptorAttr::AF != 0
    }

    open spec fn spec_unused() -> Self {
        PTEntry(0)
    }

    open spec fn spec_set_old(self) -> Self {
        PTEntry(self.0 & !DescriptorAttr::AF)
    }

    open spec fn spec_set_addr(self, paddr: PhysAddr) -> Self {
        PTEntry((self.0 & !PHYS_ADDR_MASK) | (paddr & PHYS_ADDR_MASK))
    }

    open spec fn spec_set_flags(self, flags: MemFlags, is_huge: bool) -> Self {
        PTEntry(
            (if is_huge {
                spec_encode(flags.bits) & !DescriptorAttr::NON_BLOCK
            } else {
                spec_encode(flags.bits) | DescriptorAttr::NON_BLOCK
            }) | (self.0 & PHYS_ADDR_MASK),
        )
    }

    open spec fn spec_set_table(self, paddr: PhysAddr, next_level: PageTableLevel, is_present: bool) -> Self {
        PTEntry(
            (paddr & PHYS_ADDR_MASK) | DescriptorAttr::NON_BLOCK | (if is_present {
                DescriptorAttr::VALID
            } else {
                0
            }),
        )
    }

    open spec fn spec_set_present(self) -> Self {
        PTEntry(self.0 | DescriptorAttr::VALID)
    }

    open spec fn spec_set_notpresent(self) -> Self {
        PTEntry(self.0 & !DescriptorAttr::VALID)
    }

    open spec fn spec_addr_fits(paddr: PhysAddr) -> bool {
        paddr & !PHYS_ADDR_MASK == 0
    }

    open spec fn spec_lossless(flags: MemFlags) -> bool {
        spec_lossless(flags.bits)
    }

    proof fn lemma_unused() {
        lemma_observers(0);
    }

    proof fn lemma_unused_unique(e: Self) {
    }

    proof fn lemma_set_addr(e: Self, paddr: PhysAddr) {
        lemma_set_addr_bits(e.0, paddr);
    }

    proof fn lemma_set_flags(e: Self, flags: MemFlags, is_huge: bool) {
        lemma_set_flags_bits(e.0, flags.bits);
    }

    proof fn lemma_set_table(e: Self, paddr: PhysAddr, next_level: PageTableLevel, is_present: bool) {
        lemma_set_table_bits(paddr);
    }

    proof fn lemma_set_bits(e: Self) {
        lemma_set_bits_bits(e.0);
    }

    fn unused() -> (e: Self) {
        PTEntry(0)
    }

    fn addr(&self) -> (r: PhysAddr) {
        self.0 & PHYS_ADDR_MASK
    }

    fn flags(&self) -> (r: MemFlags) {
        proof {
            lemma_observers(self.0);
        }
        MemFlags::from(DescriptorAttr::from_bits_truncate(self.0))
    }

    fn is_unused(&self) -> (r: bool) {
        self.0 == 0
    }

    fn is_present(&self) -> (r: bool) {
        self.0 & DescriptorAttr::VALID != 0
    }

    fn is_leaf(&self) -> (r: bool) {
        proof {
            lemma_observers(self.0);
        }
        !DescriptorAttr::from_bits_truncate(self.0).contains(DescriptorAttr::NON_BLOCK)
    }

    fn is_young(&self) -> (r: bool) {
        self.0 & DescriptorAttr::AF != 0
    }

    fn set_old(&mut self) {
        self.0 = self.0 & !DescriptorAttr::AF;
    }

    fn set_addr(&mut self, paddr: PhysAddr) {
        self.0 = (self.0 & !PHYS_ADDR_MASK) | (paddr & PHYS_ADDR_MASK);
    }

    fn set_flags(&mut self, flags: MemFlags, is_huge: bool) -> (r: PagingResult<()>) {
        let mut attr = DescriptorAttr::from(flags);
        if is_huge {
            attr.remove(DescriptorAttr::NON_BLOCK);
        } else {
            attr.insert(DescriptorAttr::NON_BLOCK);
        }
        self.0 = attr.bits() | (self.0 & PHYS_ADDR_MASK);
        Ok(())
    }

    fn set_table(&mut self, paddr: PhysAddr, next_level: PageTableLevel, is_present: bool) -> (r:
        PagingResult<()>) {
        if paddr & !PHYS_ADDR_MASK != 0 {
            return Err(PagingError::OutOfRange);
        }
        let valid: u64 = if is_present {
            DescriptorAttr::VALID
        } else {
            0
        };
        self.0 = (paddr & PHYS_ADDR_MASK) | DescriptorAttr::NON_BLOCK | valid;
        Ok(())
    }

    fn set_present(&mut self) -> (r: PagingResult<()>) {
        self.0 = self.0 | DescriptorAttr::VALID;
        Ok(())
    }

    fn set_notpresent(&mut self) -> (r: PagingResult<()>) {
        self.0 = self.0 & !DescriptorAttr::VALID;
        Ok(())
    }

    fn clear(&mut self) {
        proof {
            lemma_observers(0);
        }
        self.0 = 0;
    }
}

/// The paging instructions of stage-2 translation.
#[derive(Clone, Copy, Debug)]
pub struct S2PTInstr;

impl PagingInstr for S2PTInstr {
    open spec fn spec_activate(root_paddr: PhysAddr) -> Seq<PagingOp> {
        seq![
            PagingOp::SetRoot(root_paddr),
            PagingOp::InstructionBarrier,
            PagingOp::InvalidateAll,
            PagingOp::DataBarrier,
        ]
    }

    open spec fn spec_flush(vaddr: Option<VirtAddr>) -> Seq<PagingOp> {
        match vaddr {
            Some(v) => seq![
                PagingOp::InvalidatePage(v),
                PagingOp::DataBarrier,
                PagingOp::InstructionBarrier,
            ],
            None => seq![
                PagingOp::InvalidateAll,
                PagingOp::DataBarrier,
                PagingOp::InstructionBarrier,
            ],
        }
    }

    fn activate(root_paddr: PhysAddr) -> (ops: Vec<PagingOp>) {
        let mut ops: Vec<PagingOp> = Vec::new();
        ops.push(PagingOp::SetRoot(root_paddr));
        ops.push(PagingOp::InstructionBarrier);
        ops.push(PagingOp::InvalidateAll);
        ops.push(PagingOp::DataBarrier);
        assert(ops@ =~= Self::spec_activate(root_paddr));
        ops
    }

    fn flush(vaddr: Option<VirtAddr>) -> (ops: Vec<PagingOp>) {
        let mut ops: Vec<PagingOp> = Vec::new();
        match vaddr {
            Some(v) => ops.push(PagingOp::InvalidatePage(v)),
            None => ops.push(PagingOp::InvalidateAll),
        }
        ops.push(PagingOp::DataBarrier);
        ops.push(PagingOp::InstructionBarrier);
        assert(ops@ =~= Self::spec_flush(vaddr));
        ops
    }
}

/// The stage-2 tree of a guest, read-only.
pub type PageTableImmut = Level4PageTableImmut<PTEntry>;

/// The stage-2 tree of a guest, with exclusive access.
pub type GuestPageTableUnlocked = Level4PageTableUnlocked<PTEntry, S2PTInstr>;

} // verus!
