//! The vocabulary shared by every descriptor format and by the page-table
//! engine: levels, errors, the entry capability set and the paging
//! instruction adapter.

use vstd::prelude::*;
use crate::memory::addr::{PhysAddr, VirtAddr};
use crate::memory::flags::MemFlags;

verus! {

/// Number of entries in one table of any level.
pub const ENTRY_COUNT: usize = 512;

/// Why a page-table operation was rejected.
#[derive(Clone, Copy, Debug, PartialEq, Eq, Structural)]
pub enum PagingError {
    /// No frame is left for a new intermediate table.
    NoMemory,
    /// No mapping covers the address.
    NotMapped,
    /// The entry that would hold the mapping is already in use.
    AlreadyMapped,
    /// A block mapping covers the address above the requested level.
    MappedToHugePage,
    /// An address is not a multiple of the size mapped at the requested level.
    NotAligned,
    /// A block mapping was requested at a level that cannot hold one.
    HugeNotAllowed,
    /// A physical address does not fit the address field of a descriptor.
    OutOfRange,
    /// A descriptor carries a memory-attribute index that the codec never assigns.
    UnknownMemType,
}

pub type PagingResult<T> = Result<T, PagingError>;

/// The depth of a table in the four-level tree, from the root (`L4`) down to
/// the tables whose entries map base pages (`L1`).
#[derive(Clone, Copy, Debug, PartialEq, Eq, Structural)]
pub enum PageTableLevel {
    L4,
    L3,
    L2,
    L1,
}

impl PageTableLevel {
    /// Number of tables between the root and a table of this level.
    pub open spec fn spec_depth(self) -> nat {
        match self {
            PageTableLevel::L4 => 0,
            PageTableLevel::L3 => 1,
            PageTableLevel::L2 => 2,
            PageTableLevel::L1 => 3,
        }
    }

    /// The level of the tables at distance `depth` from the root.
    pub open spec fn spec_from_depth(depth: nat) -> PageTableLevel {
        if depth == 0 {
            PageTableLevel::L4
        } else if depth == 1 {
            PageTableLevel::L3
        } else if depth == 2 {
            PageTableLevel::L2
        } else {
            PageTableLevel::L1
        }
    }

    /// Number of bytes that one entry of a table of this level translates.
    pub open spec fn spec_span(self) -> u64 {
        match self {
            PageTableLevel::L4 => 0x80_0000_0000,
            PageTableLevel::L3 => 0x4000_0000,
            PageTableLevel::L2 => 0x20_0000,
            PageTableLevel::L1 => 0x1000,
        }
    }

    /// The entry of a table of this level that translates `vaddr`: nine
    /// address bits, the topmost nine of the low 48 at the root.
    pub open spec fn spec_index(self, vaddr: VirtAddr) -> int {
        (vaddr as int / self.spec_span() as int) % 512
    }

    /// Whether an entry of a table of this level may map a block directly.
    pub open spec fn spec_allows_block(self) -> bool {
        self == PageTableLevel::L3 || self == PageTableLevel::L2
    }

    /// Whether `addr` is a multiple of the size one entry of this level maps.
    pub open spec fn spec_is_aligned(self, addr: u64) -> bool {
        addr as int % self.spec_span() as int == 0
    }

    /// Number of tables between the root and a table of this level.
    pub fn depth(self) -> (r: usize)
        ensures
            r == self.spec_depth(),
    {
        match self {
            PageTableLevel::L4 => 0,
            PageTableLevel::L3 => 1,
            PageTableLevel::L2 => 2,
            PageTableLevel::L1 => 3,
        }
    }

    /// The level of the tables at distance `depth` from the root; every
    /// depth beyond the third is taken as the last level.
    pub fn from_depth(depth: usize) -> (r: PageTableLevel)
        ensures
            r == Self::spec_from_depth(depth as nat),
    {
        if depth == 0 {
            PageTableLevel::L4
        } else if depth == 1 {
            PageTableLevel::L3
        } else if depth == 2 {
            PageTableLevel::L2
        } else {
            PageTableLevel::L1
        }
    }

    /// The level below this one, if there is one.
    pub fn next(self) -> (r: Option<PageTableLevel>)
        ensures
            r == match self {
                PageTableLevel::L4 => Some(PageTableLevel::L3),
                PageTableLevel::L3 => Some(PageTableLevel::L2),
                PageTableLevel::L2 => Some(PageTableLevel::L1),
                PageTableLevel::L1 => None::<PageTableLevel>,
            },
    {
        match self {
            PageTableLevel::L4 => Some(PageTableLevel::L3),
            PageTableLevel::L3 => Some(PageTableLevel::L2),
            PageTableLevel::L2 => Some(PageTableLevel::L1),
            PageTableLevel::L1 => None,
        }
    }

    /// Number of bytes that one entry of a table of this level translates.
    pub fn span(self) -> (r: u64)
        ensures
            r == self.spec_span(),
    {
        match self {
            PageTableLevel::L4 => 0x80_0000_0000,
            PageTableLevel::L3 => 0x4000_0000,
            PageTableLevel::L2 => 0x20_0000,
            PageTableLevel::L1 => 0x1000,
        }
    }

    /// Whether an entry of a table of this level may map a block directly.
    pub fn allows_block(self) -> (r: bool)
        ensures
            r == self.spec_allows_block(),
    {
        match self {
            PageTableLevel::L3 => true,
            PageTableLevel::L2 => true,
            _ => false,
        }
    }

    /// Whether `addr` is a multiple of the size one entry of this level maps.
    pub fn is_aligned(self, addr: u64) -> (r: bool)
        ensures
            r == self.spec_is_aligned(addr),
    {
        addr % self.span() == 0
    }

    /// The entry of a table of this level that translates `vaddr`.
    pub fn index(self, vaddr: VirtAddr) -> (r: usize)
        ensures
            r == self.spec_index(vaddr),
            r < ENTRY_COUNT,
    {
        let s: u64 = self.span();
        ((vaddr / s) % 512) as usize
    }
}

/// One step of an address-space switch or of a translation-cache
/// invalidation, in the order in which the processor must execute them.
#[derive(Clone, Copy, Debug, PartialEq, Eq, Structural)]
pub enum PagingOp {
    /// Install the physical address of a root table in the translation base register.
    SetRoot(PhysAddr),
    /// Synchronise the instruction stream.
    InstructionBarrier,
    /// Drop every cached translation of the address space.
    InvalidateAll,
    /// Drop the cached translation of the page that holds the address.
    InvalidatePage(VirtAddr),
    /// Wait until earlier invalidations and table writes have completed.
    DataBarrier,
}

/// The instruction sequences with which one architecture and translation
/// stage activates a root table and invalidates cached translations. The
/// engine issues no barrier of its own: it hands these sequences to whoever
/// drives the processor.
pub trait PagingInstr {
    /// The sequence that installs `root_paddr` as the root table.
    spec fn spec_activate(root_paddr: PhysAddr) -> Seq<PagingOp>;

    /// The sequence that invalidates one page, or everything for `None`.
    spec fn spec_flush(vaddr: Option<VirtAddr>) -> Seq<PagingOp>;

    /// The sequence that installs `root_paddr` as the root table and makes
    /// the new mappings visible.
    fn activate(root_paddr: PhysAddr) -> (ops: Vec<PagingOp>)
        ensures
            ops@ == Self::spec_activate(root_paddr),
    ;

    /// The sequence that invalidates the cached translation of `vaddr`, or
    /// every cached translation when `vaddr` is `None`.
    fn flush(vaddr: Option<VirtAddr>) -> (ops: Vec<PagingOp>)
        ensures
            ops@ == Self::spec_flush(vaddr),
    ;
}

/// What every descriptor format provides to the page-table engine.
///
/// The observers say what an entry means; the `spec_set_*` functions say
/// what each mutator makes of an entry; the lemmas are the obligations that
/// keep the address field and the attribute bits apart.
pub trait GenericPTE: Sized + Copy {
    /// The physical address held by the entry.
    spec fn spec_addr(self) -> PhysAddr;

    /// The attribute set that the entry's bits decode to.
    spec fn spec_flags(self) -> MemFlags;

    /// Whether the entry is all zero.
    spec fn spec_is_unused(self) -> bool;

    /// Whether the hardware takes the entry as valid.
    spec fn spec_is_present(self) -> bool;

    /// Whether the entry ends the translation above the last level.
    spec fn spec_is_leaf(self) -> bool;

    /// Whether the entry's access flag is set.
    spec fn spec_is_young(self) -> bool;

    /// The all-zero entry.
    spec fn spec_unused() -> Self;

    /// The entry with its access flag cleared.
    spec fn spec_set_old(self) -> Self;

    /// The entry with its address field replaced.
    spec fn spec_set_addr(self, paddr: PhysAddr) -> Self;

    /// The entry with its attribute bits replaced by the encoding of `flags`.
    spec fn spec_set_flags(self, flags: MemFlags, is_huge: bool) -> Self;

    /// The entry that points to the table at `paddr`.
    spec fn spec_set_table(self, paddr: PhysAddr, next_level: PageTableLevel, is_present: bool) -> Self;

    /// The entry marked valid.
    spec fn spec_set_present(self) -> Self;

    /// The entry marked invalid.
    spec fn spec_set_notpresent(self) -> Self;

    /// Whether the address field can hold `paddr` without loss.
    spec fn spec_addr_fits(paddr: PhysAddr) -> bool;

    /// Whether `flags` survives encoding and decoding unchanged.
    spec fn spec_lossless(flags: MemFlags) -> bool;

    /// The all-zero entry is unused, not present, and decodes to exactly
    /// "not present".
    proof fn lemma_unused()
        ensures
            Self::spec_unused().spec_is_unused(),
            !Self::spec_unused().spec_is_present(),
            Self::spec_unused().spec_flags().bits == MemFlags::NO_PRESENT,
    ;

    /// Only the all-zero entry is unused.
    proof fn lemma_unused_unique(e: Self)
        ensures
            e.spec_is_unused() <==> e == Self::spec_unused(),
    ;

    /// Replacing the address leaves every attribute alone, and an address
    /// that fits is read back unchanged.
    proof fn lemma_set_addr(e: Self, paddr: PhysAddr)
        ensures
            e.spec_set_addr(paddr).spec_flags() == e.spec_flags(),
            e.spec_set_addr(paddr).spec_is_present() == e.spec_is_present(),
            e.spec_set_addr(paddr).spec_is_leaf() == e.spec_is_leaf(),
            e.spec_set_addr(paddr).spec_is_young() == e.spec_is_young(),
            Self::spec_addr_fits(paddr) ==> e.spec_set_addr(paddr).spec_addr() == paddr,
    ;

    /// Replacing the attributes leaves the address alone, yields an entry in
    /// use of the requested kind, and a lossless attribute set is read back
    /// unchanged.
    proof fn lemma_set_flags(e: Self, flags: MemFlags, is_huge: bool)
        ensures
            e.spec_set_flags(flags, is_huge).spec_addr() == e.spec_addr(),
            !e.spec_set_flags(flags, is_huge).spec_is_unused(),
            e.spec_set_flags(flags, is_huge).spec_is_leaf() == is_huge,
            e.spec_set_flags(flags, is_huge).spec_is_present() == (flags.bits & MemFlags::NO_PRESENT
                == 0),
            Self::spec_lossless(flags) ==> e.spec_set_flags(flags, is_huge).spec_flags() == flags,
    ;

    /// A table pointer is in use, is no leaf, is present as requested, and
    /// holds the table's address when that address fits.
    proof fn lemma_set_table(e: Self, paddr: PhysAddr, next_level: PageTableLevel, is_present: bool)
        ensures
            !e.spec_set_table(paddr, next_level, is_present).spec_is_unused(),
            !e.spec_set_table(paddr, next_level, is_present).spec_is_leaf(),
            e.spec_set_table(paddr, next_level, is_present).spec_is_present() == is_present,
            Self::spec_addr_fits(paddr) ==> e.spec_set_table(
                paddr,
                next_level,
                is_present,
            ).spec_addr() == paddr,
    ;

    /// Marking an entry valid or invalid, or clearing its access flag,
    /// changes that one property and neither the address nor the kind.
    proof fn lemma_set_bits(e: Self)
        ensures
            e.spec_set_present().spec_is_present(),
            e.spec_set_present().spec_addr() == e.spec_addr(),
            e.spec_set_present().spec_is_leaf() == e.spec_is_leaf(),
            e.spec_set_present().spec_is_young() == e.spec_is_young(),
            !e.spec_set_notpresent().spec_is_present(),
            e.spec_set_notpresent().spec_addr() == e.spec_addr(),
            e.spec_set_notpresent().spec_is_leaf() == e.spec_is_leaf(),
            e.spec_set_notpresent().spec_is_young() == e.spec_is_young(),
            e.spec_set_notpresent().spec_flags().bits == MemFlags::NO_PRESENT,
            !e.spec_set_old().spec_is_young(),
            e.spec_set_old().spec_addr() == e.spec_addr(),
            e.spec_set_old().spec_flags() == e.spec_flags(),
            e.spec_set_old().spec_is_present() == e.spec_is_present(),
            e.spec_set_old().spec_is_leaf() == e.spec_is_leaf(),
    ;

    /// The all-zero entry.
    fn unused() -> (e: Self)
        ensures
            e == Self::spec_unused(),
    ;

    /// The physical address held by the entry.
    fn addr(&self) -> (r: PhysAddr)
        ensures
            r == self.spec_addr(),
    ;

    /// The attribute set that the entry's bits decode to.
    fn flags(&self) -> (r: MemFlags)
        ensures
            r == self.spec_flags(),
    ;

    /// Whether the entry is all zero.
    fn is_unused(&self) -> (r: bool)
        ensures
            r == self.spec_is_unused(),
    ;

    /// Whether the hardware takes the entry as valid.
    fn is_present(&self) -> (r: bool)
        ensures
            r == self.spec_is_present(),
    ;

    /// Whether the entry ends the translation above the last level.
    fn is_leaf(&self) -> (r: bool)
        ensures
            r == self.spec_is_leaf(),
    ;

    /// Whether the entry's access flag is set.
    fn is_young(&self) -> (r: bool)
        ensures
            r == self.spec_is_young(),
    ;

    /// Clears the access flag.
    fn set_old(&mut self)
        ensures
            *final(self) == old(self).spec_set_old(),
    ;

    /// Replaces the address field; bits of `paddr` outside it are dropped.
    fn set_addr(&mut self, paddr: PhysAddr)
        ensures
            *final(self) == old(self).spec_set_addr(paddr),
    ;

    /// Replaces the attribute bits by the encoding of `flags`, as a block
    /// descriptor when `is_huge` holds and as a page descriptor otherwise.
    fn set_flags(&mut self, flags: MemFlags, is_huge: bool) -> (r: PagingResult<()>)
        ensures
            r is Ok,
            *final(self) == old(self).spec_set_flags(flags, is_huge),
    ;

    /// Makes the entry point to the table of level `next_level` at `paddr`.
    /// An address that does not fit the address field is rejected and the
    /// entry stays as it was.
    fn set_table(&mut self, paddr: PhysAddr, next_level: PageTableLevel, is_present: bool) -> (r:
        PagingResult<()>)
        ensures
            r == if Self::spec_addr_fits(paddr) {
                Ok::<(), PagingError>(())
            } else {
                Err::<(), PagingError>(PagingError::OutOfRange)
            },
            *final(self) == if Self::spec_addr_fits(paddr) {
                old(self).spec_set_table(paddr, next_level, is_present)
            } else {
                *old(self)
            },
    ;

    /// Marks the entry valid; nothing else changes.
    fn set_present(&mut self) -> (r: PagingResult<()>)
        ensures
            r is Ok,
            *final(self) == old(self).spec_set_present(),
    ;

    /// Marks the entry invalid; nothing else changes.
    fn set_notpresent(&mut self) -> (r: PagingResult<()>)
        ensures
            r is Ok,
            *final(self) == old(self).spec_set_notpresent(),
    ;

    /// Zeroes the entry, which is then unused, not present, and decodes to
    /// exactly "not present".
    fn clear(&mut self)
        ensures
            *final(self) == Self::spec_unused(),
            final(self).spec_is_unused(),
            !final(self).spec_is_present(),
            final(self).spec_flags().bits == MemFlags::NO_PRESENT,
    ;
}

} // verus!
