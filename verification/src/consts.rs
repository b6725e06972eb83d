//! Platform constants shared by every module.

use vstd::prelude::*;

verus! {

/// Size of a base page in bytes.
pub const PAGE_SIZE: u64 = 0x1000;

/// Virtual address at which the hypervisor image is mapped.
pub const HV_BASE: u64 = 0xffff_ff00_0000_0000;

/// The memory-encryption tag bit of a physical address.
pub const SME_C_BIT_OFFSET: u64 = 0x8000_0000_0000;

} // verus!
