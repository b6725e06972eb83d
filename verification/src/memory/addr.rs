//! Physical and virtual addresses and page-granular arithmetic on them.
//!
//! Addresses are 64-bit machine words. The offset between the hypervisor's
//! virtual window and physical memory is computed once at start-up with
//! [`phys_virt_offset`] and handed to the two translation functions.

use vstd::prelude::*;
use crate::consts::{HV_BASE, PAGE_SIZE, SME_C_BIT_OFFSET};

verus! {

pub type VirtAddr = u64;

pub type PhysAddr = u64;

pub type GuestVirtAddr = u64;

pub type GuestPhysAddr = u64;

pub type HostVirtAddr = VirtAddr;

pub type HostPhysAddr = PhysAddr;

/// The largest multiple of the page size that is at most `addr`.
pub open spec fn spec_align_down(addr: nat) -> nat {
    (addr - addr % (PAGE_SIZE as nat)) as nat
}

/// The smallest multiple of the page size that is at least `addr`.
pub open spec fn spec_align_up(addr: nat) -> nat {
    spec_align_down(addr + (PAGE_SIZE - 1) as nat)
}

/// Distance of `addr` from the start of its page.
pub open spec fn spec_page_offset(addr: nat) -> nat {
    addr % (PAGE_SIZE as nat)
}

/// Whether `addr` lies on a page boundary.
pub open spec fn spec_is_aligned(addr: nat) -> bool {
    spec_page_offset(addr) == 0
}

/// Number of pages needed to hold `size` bytes.
pub open spec fn spec_page_count(size: nat) -> nat {
    spec_align_up(size) / (PAGE_SIZE as nat)
}

/// The distance between a hypervisor virtual address and the physical
/// address behind it, for an image loaded at physical address `phys_start`.
pub fn phys_virt_offset(phys_start: PhysAddr) -> (offset: u64)
    requires
        phys_start <= HV_BASE,
    ensures
        offset == HV_BASE - phys_start,
{
    HV_BASE - phys_start
}

/// Marks a physical address as encrypted by setting its tag bit.
pub fn phys_encrypted(paddr: PhysAddr) -> (r: PhysAddr)
    ensures
        r == paddr | SME_C_BIT_OFFSET,
        r & SME_C_BIT_OFFSET == SME_C_BIT_OFFSET,
        r & !SME_C_BIT_OFFSET == paddr & !SME_C_BIT_OFFSET,
{
    assert((paddr | 0x8000_0000_0000u64) & 0x8000_0000_0000u64 == 0x8000_0000_0000u64)
        by (bit_vector);
    assert((paddr | 0x8000_0000_0000u64) & !0x8000_0000_0000u64 == paddr & !0x8000_0000_0000u64)
        by (bit_vector);
    paddr | SME_C_BIT_OFFSET
}

/// Translates a hypervisor virtual address to the physical address behind it.
pub fn virt_to_phys(vaddr: VirtAddr, offset: u64) -> (paddr: PhysAddr)
    requires
        offset <= vaddr,
    ensures
        paddr == vaddr - offset,
{
    vaddr - offset
}

/// Translates a physical address, with or without its encryption tag, to the
/// hypervisor virtual address that maps it.
pub fn phys_to_virt(paddr: PhysAddr, offset: u64) -> (vaddr: VirtAddr)
    requires
        paddr % SME_C_BIT_OFFSET + offset <= u64::MAX,
    ensures
        vaddr == paddr % SME_C_BIT_OFFSET + offset,
{
    assert(paddr & 0x7fff_ffff_ffffu64 == paddr % 0x8000_0000_0000u64) by (bit_vector);
    (paddr & (SME_C_BIT_OFFSET - 1)) + offset
}

/// Rounds `addr` down to the start of its page.
pub fn align_down(addr: u64) -> (r: u64)
    ensures
        r == spec_align_down(addr as nat),
{
    assert(addr & !0xfffu64 == (addr - addr % 0x1000u64) as u64) by (bit_vector);
    addr & !(PAGE_SIZE - 1)
}

/// Rounds `addr` up to the next page boundary.
pub fn align_up(addr: u64) -> (r: u64)
    requires
        addr + PAGE_SIZE - 1 <= u64::MAX,
    ensures
        r == spec_align_up(addr as nat),
{
    let bumped: u64 = addr + (PAGE_SIZE - 1);
    assert(bumped & !0xfffu64 == (bumped - bumped % 0x1000u64) as u64) by (bit_vector);
    bumped & !(PAGE_SIZE - 1)
}

/// Whether `addr` lies on a page boundary.
pub fn is_aligned(addr: u64) -> (r: bool)
    ensures
        r == spec_is_aligned(addr as nat),
{
    page_offset(addr) == 0
}

/// Number of pages needed to hold `size` bytes.
pub fn page_count(size: u64) -> (r: u64)
    requires
        size + PAGE_SIZE - 1 <= u64::MAX,
    ensures
        r == spec_page_count(size as nat),
{
    align_up(size) / PAGE_SIZE
}

/// Distance of `addr` from the start of its page.
pub fn page_offset(addr: u64) -> (r: u64)
    ensures
        r == spec_page_offset(addr as nat),
{
    assert(addr & 0xfffu64 == addr % 0x1000u64) by (bit_vector);
    addr & (PAGE_SIZE - 1)
}

/// Rounding up yields an aligned address that rounding down leaves alone, and
/// a rounded-down address has page offset zero. Both rounded values stay
/// within one page of the address.
pub proof fn lemma_alignment(addr: nat)
    ensures
        spec_align_down(spec_align_up(addr)) == spec_align_up(addr),
        spec_is_aligned(spec_align_up(addr)),
        spec_page_offset(spec_align_down(addr)) == 0,
        spec_align_down(addr) <= addr <= spec_align_up(addr),
        addr < spec_align_down(addr) + PAGE_SIZE,
        spec_align_up(addr) < addr + PAGE_SIZE,
{
    let p = PAGE_SIZE as int;
    let a = addr as int;
    let b = a + p - 1;
    assert((a - a % p) % p == 0) by (nonlinear_arith)
        requires p == 0x1000, a >= 0;
    assert((b - b % p) % p == 0) by (nonlinear_arith)
        requires p == 0x1000, b >= 0;
}

/// A page count is exact: `spec_page_count(size)` pages hold `size` bytes and
/// one page fewer does not.
pub proof fn lemma_page_count(size: nat)
    ensures
        spec_page_count(size) * PAGE_SIZE >= size,
        size > 0 ==> (spec_page_count(size) - 1) * PAGE_SIZE < size,
        spec_page_count(size) * PAGE_SIZE == spec_align_up(size),
{
    lemma_alignment(size);
    let p = PAGE_SIZE as int;
    let u = spec_align_up(size) as int;
    assert((u / p) * p == u) by (nonlinear_arith)
        requires p == 0x1000, u >= 0, u % p == 0;
}

} // verus!
