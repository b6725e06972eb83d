//! Extended page tables: the second-stage descriptor format of x86_64, its
//! mapping to and from [`MemFlags`], and the instruction sequences that
//! activate an extended page-table root.
//!
//! The format has no valid bit: an entry is present if it grants any of
//! read, write or execute. An encoded mapping that is present is always
//! readable, so attribute sets that survive encoding and decoding unchanged
//! are exactly "not present" alone and every subset of read, write and
//! execute that contains read. The device attribute selects the memory type
//! and is read back with [`EPTFlags::mem_type`].

use vstd::prelude::*;
use vstd::std_specs::convert::FromSpecImpl;
use crate::memory::addr::{PhysAddr, VirtAddr};
use crate::memory::flags::MemFlags;
use crate::memory::page_table::{Level4PageTableImmut, Level4PageTableUnlocked};
use crate::memory::paging::{GenericPTE, PageTableLevel, PagingError, PagingInstr, PagingOp, PagingResult};

verus! {

/// Attribute fields of an extended page-table entry.
#[derive(Clone, Copy, Debug, PartialEq, Eq, Structural)]
pub struct EPTFlags {
    pub bits: u64,
}

/// The memory types that an entry can give to the memory it maps.
#[derive(Clone, Copy, Debug, PartialEq, Eq, Structural)]
pub enum EPTMemType {
    Uncached,
    WriteCombining,
    WriteThrough,
    WriteProtected,
    WriteBack,
}

/// Bits of an entry that hold the physical address: bits 12 to 51.
pub const PHYS_ADDR_MASK: u64 = 0x000f_ffff_ffff_f000;

impl EPTFlags {
    /// Read access.
    pub const READ: u64 = 0x1;

    /// Write access.
    pub const WRITE: u64 = 0x2;

    /// Instruction fetch.
    pub const EXECUTE: u64 = 0x4;

    /// The memory type field.
    pub const MEM_TYPE_MASK: u64 = 0x38;

    /// Ignore the guest's page attribute table.
    pub const IGNORE_PAT: u64 = 0x40;

    /// The entry maps a block instead of pointing to a table.
    pub const HUGE_PAGE: u64 = 0x80;

    /// The entry was used for a translation.
    pub const ACCESSED: u64 = 0x100;

    /// A write went through the entry.
    pub const DIRTY: u64 = 0x200;

    /// Instruction fetch from user-mode addresses.
    pub const EXECUTE_FOR_USER: u64 = 0x400;

    /// The three access bits.
    pub const ACCESS: u64 = 0x7;

    /// Every defined attribute bit.
    pub const ALL: u64 = 0x7ff;

    /// Memory type bits of uncached memory.
    pub const UNCACHED_MEMORY: u64 = 0x0;

    /// Memory type bits of write-back memory.
    pub const WRITE_BACK_MEMORY: u64 = 0x30;

    /// The attribute set with the defined bits of `bits`.
    pub fn from_bits_truncate(bits: u64) -> (r: EPTFlags)
        ensures
            r.bits == bits & Self::ALL,
    {
        EPTFlags { bits: bits & Self::ALL }
    }

    /// The raw bits of the set.
    pub fn bits(&self) -> (r: u64)
        ensures
            r == self.bits,
    {
        self.bits
    }

    /// Whether every bit of `mask` is set.
    pub fn contains(&self, mask: u64) -> (r: bool)
        ensures
            r == (self.bits & mask == mask),
    {
        self.bits & mask == mask
    }

    /// Whether some bit of `mask` is set.
    pub fn intersects(&self, mask: u64) -> (r: bool)
        ensures
            r == (self.bits & mask != 0),
    {
        self.bits & mask != 0
    }

    /// Sets the bits of `mask`.
    pub fn insert(&mut self, mask: u64)
        ensures
            final(self).bits == old(self).bits | mask,
    {
        self.bits = self.bits | mask;
    }

    /// Clears the bits of `mask`.
    pub fn remove(&mut self, mask: u64)
        ensures
            final(self).bits == old(self).bits & !mask,
    {
        self.bits = self.bits & !mask;
    }

    /// The number that the memory type field holds for `mem_type`.
    pub open spec fn spec_type_index(mem_type: EPTMemType) -> u64 {
        match mem_type {
            EPTMemType::Uncached => 0,
            EPTMemType::WriteCombining => 1,
            EPTMemType::WriteThrough => 4,
            EPTMemType::WriteProtected => 5,
            EPTMemType::WriteBack => 6,
        }
    }

    /// The memory type field of the entry, as a number.
    pub open spec fn spec_attr_index(self) -> u64 {
        (self.bits & Self::MEM_TYPE_MASK) >> 3
    }

    /// The attribute bits that select `mem_type`.
    pub fn from_mem_type(mem_type: EPTMemType) -> (r: EPTFlags)
        ensures
            r.spec_attr_index() == Self::spec_type_index(mem_type),
            r.bits & !Self::MEM_TYPE_MASK == 0,
            mem_type == EPTMemType::Uncached ==> r.bits == Self::UNCACHED_MEMORY,
            mem_type == EPTMemType::WriteBack ==> r.bits == Self::WRITE_BACK_MEMORY,
    {
        let index: u64 = match mem_type {
            EPTMemType::Uncached => 0,
            EPTMemType::WriteCombining => 1,
            EPTMemType::WriteThrough => 4,
            EPTMemType::WriteProtected => 5,
            EPTMemType::WriteBack => 6,
        };
        assert(index <= 6 ==> ((index << 3) & 0x38u64) >> 3 == index && (index << 3) & !0x38u64 == 0
            && (index == 0 ==> index << 3 == 0) && (index == 6 ==> index << 3 == 0x30))
            by (bit_vector);
        EPTFlags { bits: index << 3 }
    }

    /// The memory type that the entry selects, or an error for a value of
    /// the field that names no memory type.
    pub fn mem_type(&self) -> (r: PagingResult<EPTMemType>)
        ensures
            r == if self.spec_attr_index() == 0 {
                Ok::<EPTMemType, PagingError>(EPTMemType::Uncached)
            } else if self.spec_attr_index() == 1 {
                Ok::<EPTMemType, PagingError>(EPTMemType::WriteCombining)
            } else if self.spec_attr_index() == 4 {
                Ok::<EPTMemType, PagingError>(EPTMemType::WriteThrough)
            } else if self.spec_attr_index() == 5 {
                Ok::<EPTMemType, PagingError>(EPTMemType::WriteProtected)
            } else if self.spec_attr_index() == 6 {
                Ok::<EPTMemType, PagingError>(EPTMemType::WriteBack)
            } else {
                Err::<EPTMemType, PagingError>(PagingError::UnknownMemType)
            },
    {
        let idx: u64 = (self.bits & Self::MEM_TYPE_MASK) >> 3;
        if idx == 0 {
            Ok(EPTMemType::Uncached)
        } else if idx == 1 {
            Ok(EPTMemType::WriteCombining)
        } else if idx == 4 {
            Ok(EPTMemType::WriteThrough)
        } else if idx == 5 {
            Ok(EPTMemType::WriteProtected)
        } else if idx == 6 {
            Ok(EPTMemType::WriteBack)
        } else {
            Err(PagingError::UnknownMemType)
        }
    }
}

/// The attribute set that entry bits decode to.
///
/// An entry that grants no access is "not present" and nothing else. Any
/// other entry is readable, writable and executable as its three access
/// bits say.
pub open spec fn spec_decode(attr: u64) -> u64 {
    if attr & EPTFlags::ACCESS == 0 {
        MemFlags::NO_PRESENT
    } else {
        (if attr & EPTFlags::READ == EPTFlags::READ {
            MemFlags::READ
        } else {
            0
        }) | (if attr & EPTFlags::WRITE == EPTFlags::WRITE {
            MemFlags::WRITE
        } else {
            0
        }) | (if attr & EPTFlags::EXECUTE == EPTFlags::EXECUTE {
            MemFlags::EXECUTE
        } else {
            0
        })
    }
}

/// The entry bits that an attribute set encodes to.
///
/// The accessed bit is always set. A mapping that is not present grants no
/// access. A present mapping grants read access, and write and execute
/// access as asked for. Device memory is uncached, everything else is
/// write-back.
pub open spec fn spec_encode(flags: u64) -> u64 {
    EPTFlags::ACCESSED | (if flags & MemFlags::NO_PRESENT == MemFlags::NO_PRESENT {
        0
    } else {
        EPTFlags::READ | (if flags & MemFlags::WRITE == MemFlags::WRITE {
            EPTFlags::WRITE
        } else {
            0
        }) | (if flags & MemFlags::EXECUTE == MemFlags::EXECUTE {
            EPTFlags::EXECUTE
        } else {
            0
        })
    }) | (if flags & MemFlags::IO == MemFlags::IO {
        EPTFlags::UNCACHED_MEMORY
    } else {
        EPTFlags::WRITE_BACK_MEMORY
    })
}

/// Whether an attribute set survives encoding and decoding unchanged: it is
/// "not present" alone, or a subset of read, write and execute that
/// contains read.
pub open spec fn spec_lossless(flags: u64) -> bool {
    flags == MemFlags::NO_PRESENT || (flags & MemFlags::READ == MemFlags::READ && flags & !0x7u64
        == 0)
}

impl From<EPTFlags> for MemFlags {
    fn from(attr: EPTFlags) -> (flags: MemFlags) {
        if !attr.intersects(EPTFlags::ACCESS) {
            MemFlags { bits: MemFlags::NO_PRESENT }
        } else {
            let read: u64 = if attr.contains(EPTFlags::READ) {
                MemFlags::READ
            } else {
                0
            };
            let write: u64 = if attr.contains(EPTFlags::WRITE) {
                MemFlags::WRITE
            } else {
                0
            };
            let execute: u64 = if attr.contains(EPTFlags::EXECUTE) {
                MemFlags::EXECUTE
            } else {
                0
            };
            MemFlags { bits: read | write | execute }
        }
    }
}

impl FromSpecImpl<EPTFlags> for MemFlags {
    open spec fn obeys_from_spec() -> bool {
        true
    }

    open spec fn from_spec(attr: EPTFlags) -> MemFlags {
        MemFlags { bits: spec_decode(attr.bits) }
    }
}

impl From<MemFlags> for EPTFlags {
    fn from(flags: MemFlags) -> (attr: EPTFlags) {
        let access: u64 = if flags.contains(MemFlags { bits: MemFlags::NO_PRESENT }) {
            0
        } else {
            let write: u64 = if flags.contains(MemFlags { bits: MemFlags::WRITE }) {
                EPTFlags::WRITE
            } else {
                0
            };
            let execute: u64 = if flags.contains(MemFlags { bits: MemFlags::EXECUTE }) {
                EPTFlags::EXECUTE
            } else {
                0
            };
            EPTFlags::READ | write | execute
        };
        let memory = if flags.contains(MemFlags { bits: MemFlags::IO }) {
            EPTFlags::from_mem_type(EPTMemType::Uncached)
        } else {
            EPTFlags::from_mem_type(EPTMemType::WriteBack)
        };
        EPTFlags { bits: EPTFlags::ACCESSED | access | memory.bits() }
    }
}

impl FromSpecImpl<MemFlags> for EPTFlags {
    open spec fn obeys_from_spec() -> bool {
        true
    }

    open spec fn from_spec(flags: MemFlags) -> EPTFlags {
        EPTFlags { bits: spec_encode(flags.bits) }
    }
}

/// Decoding what was encoded gives back every lossless attribute set, and
/// for any attribute set the memory type that was asked for. An encoding
/// never marks a block and never touches the address field.
pub proof fn lemma_round_trip(flags: u64)
    by (bit_vector)
    ensures
        spec_lossless(flags) ==> spec_decode(spec_encode(flags)) == flags,
        (spec_encode(flags) & 0x38) >> 3 == (if flags & 0x10 == 0x10 {
            0u64
        } else {
            6u64
        }),
        spec_encode(flags) & 0x80 == 0,
        spec_encode(flags) & 0x000f_ffff_ffff_f000 == 0,
        spec_encode(flags) & 0x7ff == spec_encode(flags),
        spec_encode(flags) != 0,
        (spec_decode(spec_encode(flags)) == 0x800) <==> (flags & 0x800 == 0x800),
{
}

/// A decoded attribute set is "not present" alone or a subset of read,
/// write and execute, and only defined bits are decoded.
pub proof fn lemma_decode_is_plain(attr: u64)
    by (bit_vector)
    ensures
        spec_decode(attr) == 0x800 || (spec_decode(attr) & !0x7u64 == 0 && spec_decode(attr) != 0),
        spec_decode(attr & 0x7ff) == spec_decode(attr),
{
}

/// One extended page-table entry.
#[derive(Clone, Copy, Debug, PartialEq, Eq, Structural)]
pub struct EPTEntry(pub u64);

impl EPTEntry {
    /// The entry with the given raw bits.
    pub fn from_raw(bits: u64) -> (e: EPTEntry)
        ensures
            e.0 == bits,
    {
        EPTEntry(bits)
    }

    /// The raw bits of the entry.
    pub fn bits(&self) -> (r: u64)
        ensures
            r == self.0,
    {
        self.0
    }

    /// The attribute bits of the entry.
    pub fn ept_flags(&self) -> (r: EPTFlags)
        ensures
            r.bits == self.0 & EPTFlags::ALL,
    {
        EPTFlags::from_bits_truncate(self.0)
    }
}

proof fn lemma_observers(raw: u64)
    by (bit_vector)
    ensures
        ((raw & 0x7ff) & 0x80 == 0x80) <==> (raw & 0x80 != 0),
        spec_decode(raw & 0x7ff) == spec_decode(raw),
        spec_decode(0) == 0x800,
        0u64 & 0x7 == 0,
{
}

proof fn lemma_set_addr_bits(raw: u64, paddr: u64)
    by (bit_vector)
    ensures
        spec_decode((raw & !0x000f_ffff_ffff_f000u64) | (paddr & 0x000f_ffff_ffff_f000))
            == spec_decode(raw),
        ((raw & !0x000f_ffff_ffff_f000u64) | (paddr & 0x000f_ffff_ffff_f000)) & 0x7 == raw & 0x7,
        ((raw & !0x000f_ffff_ffff_f000u64) | (paddr & 0x000f_ffff_ffff_f000)) & 0x80 == raw & 0x80,
        ((raw & !0x000f_ffff_ffff_f000u64) | (paddr & 0x000f_ffff_ffff_f000)) & 0x100 == raw
            & 0x100,
        paddr & !0x000f_ffff_ffff_f000u64 == 0 ==> ((raw & !0x000f_ffff_ffff_f000u64) | (paddr
            & 0x000f_ffff_ffff_f000)) & 0x000f_ffff_ffff_f000 == paddr,
{
}

proof fn lemma_set_flags_bits(raw: u64, flags: u64)
    by (bit_vector)
    ensures
        ((spec_encode(flags) | 0x80u64) | (raw & 0x000f_ffff_ffff_f000)) & 0x000f_ffff_ffff_f000
            == raw & 0x000f_ffff_ffff_f000,
        ((spec_encode(flags) & !0x80u64) | (raw & 0x000f_ffff_ffff_f000)) & 0x000f_ffff_ffff_f000
            == raw & 0x000f_ffff_ffff_f000,
        (spec_encode(flags) | 0x80u64) | (raw & 0x000f_ffff_ffff_f000) != 0,
        (spec_encode(flags) & !0x80u64) | (raw & 0x000f_ffff_ffff_f000) != 0,
        ((spec_encode(flags) | 0x80u64) | (raw & 0x000f_ffff_ffff_f000)) & 0x80 != 0,
        ((spec_encode(flags) & !0x80u64) | (raw & 0x000f_ffff_ffff_f000)) & 0x80 == 0,
        (((spec_encode(flags) | 0x80u64) | (raw & 0x000f_ffff_ffff_f000)) & 0x7 != 0) <==> (flags
            & 0x800 == 0),
        (((spec_encode(flags) & !0x80u64) | (raw & 0x000f_ffff_ffff_f000)) & 0x7 != 0) <==> (flags
            & 0x800 == 0),
        spec_lossless(flags) ==> spec_decode(
            (spec_encode(flags) | 0x80u64) | (raw & 0x000f_ffff_ffff_f000),
        ) == flags,
        spec_lossless(flags) ==> spec_decode(
            (spec_encode(flags) & !0x80u64) | (raw & 0x000f_ffff_ffff_f000),
        ) == flags,
{
}

proof fn lemma_set_table_bits(paddr: u64)
    by (bit_vector)
    ensures
        (paddr & 0x000f_ffff_ffff_f000) | 0x100 | 0x7 != 0,
        (paddr & 0x000f_ffff_ffff_f000) | 0x100 | 0x0 != 0,
        ((paddr & 0x000f_ffff_ffff_f000) | 0x100 | 0x7) & 0x80 == 0,
        ((paddr & 0x000f_ffff_ffff_f000) | 0x100 | 0x0) & 0x80 == 0,
        ((paddr & 0x000f_ffff_ffff_f000) | 0x100 | 0x7) & 0x7 != 0,
        ((paddr & 0x000f_ffff_ffff_f000) | 0x100 | 0x0) & 0x7 == 0,
        paddr & !0x000f_ffff_ffff_f000u64 == 0 ==> ((paddr & 0x000f_ffff_ffff_f000) | 0x100 | 0x7)
            & 0x000f_ffff_ffff_f000 == paddr,
        paddr & !0x000f_ffff_ffff_f000u64 == 0 ==> ((paddr & 0x000f_ffff_ffff_f000) | 0x100 | 0x0)
            & 0x000f_ffff_ffff_f000 == paddr,
{
}

proof fn lemma_set_bits_bits(raw: u64)
    by (bit_vector)
    ensures
        (raw | 0x1) & 0x7 != 0,
        (raw | 0x1) & 0x000f_ffff_ffff_f000 == raw & 0x000f_ffff_ffff_f000,
        (raw | 0x1) & 0x80 == raw & 0x80,
        (raw | 0x1) & 0x100 == raw & 0x100,
        (raw & !0x7u64) & 0x7 == 0,
        (raw & !0x7u64) & 0x000f_ffff_ffff_f000 == raw & 0x000f_ffff_ffff_f000,
        (raw & !0x7u64) & 0x80 == raw & 0x80,
        (raw & !0x7u64) & 0x100 == raw & 0x100,
        spec_decode(raw & !0x7u64) == 0x800,
        (raw & !0x100u64) & 0x100 == 0,
        (raw & !0x100u64) & 0x000f_ffff_ffff_f000 == raw & 0x000f_ffff_ffff_f000,
        (raw & !0x100u64) & 0x80 == raw & 0x80,
        (raw & !0x100u64) & 0x7 == raw & 0x7,
        spec_decode(raw & !0x100u64) == spec_decode(raw),
{
}

impl GenericPTE for EPTEntry {
    open spec fn spec_addr(self) -> PhysAddr {
        self.0 & PHYS_ADDR_MASK
    }

    open spec fn spec_flags(self) -> MemFlags {
        MemFlags { bits: spec_decode(self.0) }
    }

    open spec fn spec_is_unused(self) -> bool {
        self.0 == 0
    }

    open spec fn spec_is_present(self) -> bool {
        self.0 & EPTFlags::ACCESS != 0
    }

    open spec fn spec_is_leaf(self) -> bool {
        self.0 & EPTFlags::HUGE_PAGE != 0
    }

    open spec fn spec_is_young(self) -> bool {
        self.0 & EPTFlags::ACCESSED != 0
    }

    open spec fn spec_unused() -> Self {
        EPTEntry(0)
    }

    open spec fn spec_set_old(self) -> Self {
        EPTEntry(self.0 & !EPTFlags::ACCESSED)
    }

    open spec fn spec_set_addr(self, paddr: PhysAddr) -> Self {
        EPTEntry((self.0 & !PHYS_ADDR_MASK) | (paddr & PHYS_ADDR_MASK))
    }

    open spec fn spec_set_flags(self, flags: MemFlags, is_huge: bool) -> Self {
        EPTEntry(
            (if is_huge {
                spec_encode(flags.bits) | EPTFlags::HUGE_PAGE
            } else {
                spec_encode(flags.bits) & !EPTFlags::HUGE_PAGE
            }) | (self.0 & PHYS_ADDR_MASK),
        )
    }

    open spec fn spec_set_table(self, paddr: PhysAddr, next_level: PageTableLevel, is_present: bool) -> Self {
        EPTEntry(
            (paddr & PHYS_ADDR_MASK) | EPTFlags::ACCESSED | (if is_present {
                EPTFlags::ACCESS
            } else {
                0
            }),
        )
    }

    open spec fn spec_set_present(self) -> Self {
        EPTEntry(self.0 | EPTFlags::READ)
    }

    open spec fn spec_set_notpresent(self) -> Self {
        EPTEntry(self.0 & !EPTFlags::ACCESS)
    }

    open spec fn spec_addr_fits(paddr: PhysAddr) -> bool {
        paddr & !PHYS_ADDR_MASK == 0
    }

    open spec fn spec_lossless(flags: MemFlags) -> bool {
        spec_lossless(flags.bits)
    }

    proof fn lemma_unused() {
        lemma_observers(0);
    }

    proof fn lemma_unused_unique(e: Self) {
    }

    proof fn lemma_set_addr(e: Self, paddr: PhysAddr) {
        lemma_set_addr_bits(e.0, paddr);
    }

    proof fn lemma_set_flags(e: Self, flags: MemFlags, is_huge: bool) {
        lemma_set_flags_bits(e.0, flags.bits);
    }

    proof fn lemma_set_table(e: Self, paddr: PhysAddr, next_level: PageTableLevel, is_present: bool) {
        lemma_set_table_bits(paddr);
    }

    proof fn lemma_set_bits(e: Self) {
        lemma_set_bits_bits(e.0);
    }

    fn unused() -> (e: Self) {
        EPTEntry(0)
    }

    fn addr(&self) -> (r: PhysAddr) {
        self.0 & PHYS_ADDR_MASK
    }

    fn flags(&self) -> (r: MemFlags) {
        proof {
            lemma_observers(self.0);
        }
        MemFlags::from(EPTFlags::from_bits_truncate(self.0))
    }

    fn is_unused(&self) -> (r: bool) {
        self.0 == 0
    }

    fn is_present(&self) -> (r: bool) {
        self.0 & EPTFlags::ACCESS != 0
    }

    fn is_leaf(&self) -> (r: bool) {
        proof {
            lemma_observers(self.0);
        }
        EPTFlags::from_bits_truncate(self.0).contains(EPTFlags::HUGE_PAGE)
    }

    fn is_young(&self) -> (r: bool) {
        self.0 & EPTFlags::ACCESSED != 0
    }

    fn set_old(&mut self) {
        self.0 = self.0 & !EPTFlags::ACCESSED;
    }

    fn set_addr(&mut self, paddr: PhysAddr) {
        self.0 = (self.0 & !PHYS_ADDR_MASK) | (paddr & PHYS_ADDR_MASK);
    }

    fn set_flags(&mut self, flags: MemFlags, is_huge: bool) -> (r: PagingResult<()>) {
        let mut attr = EPTFlags::from(flags);
        if is_huge {
            attr.insert(EPTFlags::HUGE_PAGE);
        } else {
            attr.remove(EPTFlags::HUGE_PAGE);
        }
        self.0 = attr.bits() | (self.0 & PHYS_ADDR_MASK);
        Ok(())
    }

    fn set_table(&mut self, paddr: PhysAddr, next_level: PageTableLevel, is_present: bool) -> (r:
        PagingResult<()>) {
        if paddr & !PHYS_ADDR_MASK != 0 {
            return Err(PagingError::OutOfRange);
        }
        let access: u64 = if is_present {
            EPTFlags::ACCESS
        } else {
            0
        };
        self.0 = (paddr & PHYS_ADDR_MASK) | EPTFlags::ACCESSED | access;
        Ok(())
    }

    fn set_present(&mut self) -> (r: PagingResult<()>) {
        self.0 = self.0 | EPTFlags::READ;
        Ok(())
    }

    fn set_notpresent(&mut self) -> (r: PagingResult<()>) {
        self.0 = self.0 & !EPTFlags::ACCESS;
        Ok(())
    }

    fn clear(&mut self) {
        proof {
            lemma_observers(0);
        }
        self.0 = 0;
    }
}

/// The paging instructions of extended page tables. Cached translations
/// cannot be dropped one address at a time, so every flush drops them all.
#[derive(Clone, Copy, Debug)]
pub struct EPTInstr;

impl PagingInstr for EPTInstr {
    open spec fn spec_activate(root_paddr: PhysAddr) -> Seq<PagingOp> {
        seq![PagingOp::SetRoot(root_paddr), PagingOp::InvalidateAll]
    }

    open spec fn spec_flush(vaddr: Option<VirtAddr>) -> Seq<PagingOp> {
        seq![PagingOp::InvalidateAll]
    }

    fn activate(root_paddr: PhysAddr) -> (ops: Vec<PagingOp>) {
        let mut ops: Vec<PagingOp> = Vec::new();
        ops.push(PagingOp::SetRoot(root_paddr));
        ops.push(PagingOp::InvalidateAll);
        assert(ops@ =~= Self::spec_activate(root_paddr));
        ops
    }

    fn flush(vaddr: Option<VirtAddr>) -> (ops: Vec<PagingOp>) {
        let mut ops: Vec<PagingOp> = Vec::new();
        ops.push(PagingOp::InvalidateAll);
        assert(ops@ =~= Self::spec_flush(vaddr));
        ops
    }
}

/// The extended page tables of a guest, read-only.
pub type ExtendedPageTableImmut = Level4PageTableImmut<EPTEntry>;

/// The extended page tables of a guest, with exclusive access.
pub type ExtendedPageTableUnlocked = Level4PageTableUnlocked<EPTEntry, EPTInstr>;

} // verus!
