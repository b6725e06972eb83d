//! The system configuration that the driver places behind the hypervisor
//! image.
//!
//! The configuration is a packed little-endian block: the hypervisor's own
//! memory region, sixteen IOMMU units, four reserved-memory ranges, the
//! number of memory regions, and the regions themselves. It is read once,
//! with every offset checked against the length of the block, into an owned
//! value.

use vstd::prelude::*;
use vstd::bytes::{spec_u32_from_le_bytes, spec_u64_from_le_bytes, u32_from_le_bytes, u64_from_le_bytes};
use vstd::slice::slice_subrange;
use crate::error::{HvError, HvErrorNum, HvResult};
use crate::memory::flags::MemFlags;

verus! {

/// Number of IOMMU slots in the configuration.
pub const HV_MAX_IOMMU_UNITS: usize = 16;

/// Number of reserved-memory slots in the configuration.
pub const HV_MAX_RMRR_RANGE: usize = 4;

/// Size in bytes of a packed memory region.
pub const MEMORY_REGION_SIZE: usize = 32;

/// Size in bytes of the packed configuration without its memory regions.
pub const SYSTEM_CONFIG_SIZE: usize = 292;

/// A region of memory and how it is to be mapped.
#[derive(Clone, Copy, Debug, PartialEq, Eq, Structural)]
pub struct HvMemoryRegion {
    pub phys_start: u64,
    pub virt_start: u64,
    pub size: u64,
    pub flags: MemFlags,
}

/// The register window of one IOMMU.
#[derive(Clone, Copy, Debug, PartialEq, Eq, Structural)]
pub struct HvIommuInfo {
    pub base: u64,
    pub size: u32,
}

/// A range of memory that firmware reserves for device DMA.
#[derive(Clone, Copy, Debug, PartialEq, Eq, Structural)]
pub struct HvRmrrRange {
    pub base: u64,
    pub limit: u64,
}

/// General descriptor of the system.
#[derive(Debug)]
pub struct HvSystemConfig {
    pub hypervisor_memory: HvMemoryRegion,
    pub iommu_table: [HvIommuInfo; 16],
    pub rmrr_table: [HvRmrrRange; 4],
    pub regions: Vec<HvMemoryRegion>,
}

/// The little-endian 64-bit word at offset `at` of `bytes`.
pub open spec fn spec_u64_at(bytes: Seq<u8>, at: int) -> u64 {
    spec_u64_from_le_bytes(bytes.subrange(at, at + 8))
}

/// The little-endian 32-bit word at offset `at` of `bytes`.
pub open spec fn spec_u32_at(bytes: Seq<u8>, at: int) -> u32 {
    spec_u32_from_le_bytes(bytes.subrange(at, at + 4))
}

/// The packed memory region at offset `at` of `bytes`.
pub open spec fn spec_region_at(bytes: Seq<u8>, at: int) -> HvMemoryRegion {
    HvMemoryRegion {
        phys_start: spec_u64_at(bytes, at),
        virt_start: spec_u64_at(bytes, at + 8),
        size: spec_u64_at(bytes, at + 16),
        flags: MemFlags { bits: spec_u64_at(bytes, at + 24) },
    }
}

/// The packed IOMMU unit at offset `at` of `bytes`.
pub open spec fn spec_iommu_at(bytes: Seq<u8>, at: int) -> HvIommuInfo {
    HvIommuInfo { base: spec_u64_at(bytes, at), size: spec_u32_at(bytes, at + 8) }
}

/// The packed reserved-memory range at offset `at` of `bytes`.
pub open spec fn spec_rmrr_at(bytes: Seq<u8>, at: int) -> HvRmrrRange {
    HvRmrrRange { base: spec_u64_at(bytes, at), limit: spec_u64_at(bytes, at + 8) }
}

fn read_u64(bytes: &[u8], at: usize) -> (r: u64)
    requires
        at + 8 <= bytes@.len(),
    ensures
        r == spec_u64_at(bytes@, at as int),
{
    // The length of a slice fits a `usize`, so the offsets below do too.
    let len: usize = bytes.len();
    u64_from_le_bytes(slice_subrange(bytes, at, at + 8))
}

fn read_u32(bytes: &[u8], at: usize) -> (r: u32)
    requires
        at + 4 <= bytes@.len(),
    ensures
        r == spec_u32_at(bytes@, at as int),
{
    let len: usize = bytes.len();
    u32_from_le_bytes(slice_subrange(bytes, at, at + 4))
}

fn read_region(bytes: &[u8], at: usize) -> (r: HvMemoryRegion)
    requires
        at + 32 <= bytes@.len(),
    ensures
        r == spec_region_at(bytes@, at as int),
{
    let len: usize = bytes.len();
    HvMemoryRegion {
        phys_start: read_u64(bytes, at),
        virt_start: read_u64(bytes, at + 8),
        size: read_u64(bytes, at + 16),
        flags: MemFlags { bits: read_u64(bytes, at + 24) },
    }
}

impl HvSystemConfig {
    /// The configuration holds at most as many memory regions as its
    /// 32-bit counter can count.
    pub open spec fn wf(&self) -> bool {
        self.regions@.len() <= u32::MAX
    }

    /// Whether `bytes` holds a complete configuration: the fixed part, and
    /// as many memory regions as the fixed part announces.
    pub open spec fn spec_is_complete(bytes: Seq<u8>) -> bool {
        &&& bytes.len() >= SYSTEM_CONFIG_SIZE
        &&& bytes.len() >= SYSTEM_CONFIG_SIZE + MEMORY_REGION_SIZE * spec_u32_at(bytes, 288)
    }

    /// Whether the configuration holds what the packed block `bytes` says:
    /// the hypervisor's memory region at offset 0, the IOMMU units from
    /// offset 32 on, the reserved-memory ranges from offset 224 on, the
    /// number of memory regions at offset 288 and the regions from offset
    /// 292 on.
    pub open spec fn spec_holds(&self, bytes: Seq<u8>) -> bool {
        &&& self.wf()
        &&& self.hypervisor_memory == spec_region_at(bytes, 0)
        &&& forall|i: int|
            0 <= i < 16 ==> #[trigger] self.iommu_table@[i] == spec_iommu_at(bytes, 32 + 12 * i)
        &&& forall|i: int|
            0 <= i < 4 ==> #[trigger] self.rmrr_table@[i] == spec_rmrr_at(bytes, 224 + 16 * i)
        &&& self.regions@.len() == spec_u32_at(bytes, 288)
        &&& forall|i: int|
            0 <= i < self.regions@.len() ==> #[trigger] self.regions@[i] == spec_region_at(
                bytes,
                292 + 32 * i,
            )
    }

    /// Number of IOMMU slots in use from slot `from` on: a slot with base
    /// address zero ends the list.
    pub open spec fn spec_count_iommu(table: Seq<HvIommuInfo>, from: nat) -> nat
        decreases table.len() - from,
    {
        if from >= table.len() || table[from as int].base == 0 {
            0
        } else {
            1 + Self::spec_count_iommu(table, from + 1)
        }
    }

    /// Number of reserved-memory slots in use from slot `from` on: a slot
    /// with limit zero ends the list.
    pub open spec fn spec_count_rmrr(table: Seq<HvRmrrRange>, from: nat) -> nat
        decreases table.len() - from,
    {
        if from >= table.len() || table[from as int].limit == 0 {
            0
        } else {
            1 + Self::spec_count_rmrr(table, from + 1)
        }
    }

    /// Reads the configuration from its packed form. Bytes behind the last
    /// memory region are ignored.
    pub fn from_bytes(bytes: &[u8]) -> (r: HvResult<HvSystemConfig>)
        ensures
            match r {
                Ok(config) => {
                    &&& Self::spec_is_complete(bytes@)
                    &&& config.spec_holds(bytes@)
                },
                Err(e) => {
                    &&& !Self::spec_is_complete(bytes@)
                    &&& e == (HvError { num: HvErrorNum::EINVAL, msg: None })
                },
            },
    {
        if bytes.len() < SYSTEM_CONFIG_SIZE {
            return Err(HvError::new(HvErrorNum::EINVAL));
        }
        let count: u32 = read_u32(bytes, 288);
        if (bytes.len() - SYSTEM_CONFIG_SIZE) / MEMORY_REGION_SIZE < count as usize {
            return Err(HvError::new(HvErrorNum::EINVAL));
        }
        let hypervisor_memory = read_region(bytes, 0);
        let mut iommu_table: [HvIommuInfo; 16] = [HvIommuInfo { base: 0, size: 0 };16];
        let mut i: usize = 0;
        while i < HV_MAX_IOMMU_UNITS
            invariant
                i <= HV_MAX_IOMMU_UNITS,
                bytes@.len() >= SYSTEM_CONFIG_SIZE,
                forall|k: int|
                    0 <= k < i ==> #[trigger] iommu_table@[k] == spec_iommu_at(bytes@, 32 + 12 * k),
            decreases HV_MAX_IOMMU_UNITS - i,
        {
            let at: usize = 32 + 12 * i;
            iommu_table[i] = HvIommuInfo { base: read_u64(bytes, at), size: read_u32(bytes, at + 8) };
            i = i + 1;
        }
        let mut rmrr_table: [HvRmrrRange; 4] = [HvRmrrRange { base: 0, limit: 0 };4];
        let mut j: usize = 0;
        while j < HV_MAX_RMRR_RANGE
            invariant
                j <= HV_MAX_RMRR_RANGE,
                bytes@.len() >= SYSTEM_CONFIG_SIZE,
                forall|k: int|
                    0 <= k < j ==> #[trigger] rmrr_table@[k] == spec_rmrr_at(bytes@, 224 + 16 * k),
            decreases HV_MAX_RMRR_RANGE - j,
        {
            let at: usize = 224 + 16 * j;
            rmrr_table[j] = HvRmrrRange { base: read_u64(bytes, at), limit: read_u64(bytes, at + 8) };
            j = j + 1;
        }
        let mut regions: Vec<HvMemoryRegion> = Vec::new();
        let mut n: usize = 0;
        while n < count as usize
            invariant
                n <= count,
                bytes@.len() <= usize::MAX,
                bytes@.len() >= SYSTEM_CONFIG_SIZE + MEMORY_REGION_SIZE * count,
                regions@.len() == n,
                forall|k: int|
                    0 <= k < n ==> #[trigger] regions@[k] == spec_region_at(bytes@, 292 + 32 * k),
            decreases count - n,
        {
            regions.push(read_region(bytes, SYSTEM_CONFIG_SIZE + MEMORY_REGION_SIZE * n));
            n = n + 1;
        }
        Ok(HvSystemConfig { hypervisor_memory, iommu_table, rmrr_table, regions })
    }

    /// Reads the configuration that lies behind the hypervisor core and the
    /// per-processor areas in `image`, the memory of the hypervisor from its
    /// base address on.
    pub fn get(image: &[u8], core_size: usize, max_cpus: u32, per_cpu_size: usize) -> (r: HvResult<
        HvSystemConfig,
    >)
        ensures
            match r {
                Ok(config) => {
                    &&& core_size + max_cpus * per_cpu_size <= image@.len()
                    &&& Self::spec_is_complete(
                        image@.subrange(core_size + max_cpus * per_cpu_size, image@.len() as int),
                    )
                    &&& config.spec_holds(
                        image@.subrange(core_size + max_cpus * per_cpu_size, image@.len() as int),
                    )
                },
                Err(e) => {
                    &&& core_size + max_cpus * per_cpu_size > image@.len() || !Self::spec_is_complete(
                        image@.subrange(core_size + max_cpus * per_cpu_size, image@.len() as int),
                    )
                    &&& e == (HvError { num: HvErrorNum::EINVAL, msg: None })
                },
            },
    {
        let len = image.len();
        if core_size > len {
            return Err(HvError::new(HvErrorNum::EINVAL));
        }
        let room: usize = len - core_size;
        if per_cpu_size != 0 && room / per_cpu_size < max_cpus as usize {
            assert(core_size + max_cpus * per_cpu_size > len) by (nonlinear_arith)
                requires
                    per_cpu_size > 0,
                    room == len - core_size,
                    room / per_cpu_size < max_cpus,
            ;
            return Err(HvError::new(HvErrorNum::EINVAL));
        }
        assert(max_cpus * per_cpu_size <= room) by (nonlinear_arith)
            requires
                per_cpu_size == 0 || room / per_cpu_size >= max_cpus,
                room >= 0,
        ;
        let offset: usize = core_size + (max_cpus as usize) * per_cpu_size;
        Self::from_bytes(slice_subrange(image, offset, len))
    }

    /// Size in bytes of the packed configuration, memory regions included.
    pub fn size(&self) -> (r: u64)
        requires
            self.wf(),
        ensures
            r == SYSTEM_CONFIG_SIZE + self.regions@.len() * MEMORY_REGION_SIZE,
    {
        (SYSTEM_CONFIG_SIZE as u64) + (self.regions.len() as u64) * (MEMORY_REGION_SIZE as u64)
    }

    /// The IOMMU units of the platform: the slots before the first one
    /// whose base address is zero.
    pub fn iommu_units(&self) -> (r: &[HvIommuInfo])
        ensures
            r@.len() <= HV_MAX_IOMMU_UNITS,
            r@ == self.iommu_table@.subrange(0, r@.len() as int),
            r@.len() == Self::spec_count_iommu(self.iommu_table@, 0),
            forall|i: int| 0 <= i < r@.len() ==> (#[trigger] r@[i]).base != 0,
            r@.len() == 16 || self.iommu_table@[r@.len() as int].base == 0,
    {
        let mut n: usize = 0;
        while n < HV_MAX_IOMMU_UNITS && self.iommu_table[n].base != 0
            invariant
                n <= HV_MAX_IOMMU_UNITS,
                forall|i: int| 0 <= i < n ==> (#[trigger] self.iommu_table@[i]).base != 0,
                Self::spec_count_iommu(self.iommu_table@, 0) == n + Self::spec_count_iommu(
                    self.iommu_table@,
                    n as nat,
                ),
            decreases HV_MAX_IOMMU_UNITS - n,
        {
            n = n + 1;
        }
        slice_subrange(self.iommu_table.as_slice(), 0, n)
    }

    /// The reserved-memory ranges of the platform: the slots before the
    /// first one whose limit is zero.
    pub fn rmrr_ranges(&self) -> (r: &[HvRmrrRange])
        ensures
            r@.len() <= HV_MAX_RMRR_RANGE,
            r@ == self.rmrr_table@.subrange(0, r@.len() as int),
            r@.len() == Self::spec_count_rmrr(self.rmrr_table@, 0),
            forall|i: int| 0 <= i < r@.len() ==> (#[trigger] r@[i]).limit != 0,
            r@.len() == 4 || self.rmrr_table@[r@.len() as int].limit == 0,
    {
        let mut n: usize = 0;
        while n < HV_MAX_RMRR_RANGE && self.rmrr_table[n].limit != 0
            invariant
                n <= HV_MAX_RMRR_RANGE,
                forall|i: int| 0 <= i < n ==> (#[trigger] self.rmrr_table@[i]).limit != 0,
                Self::spec_count_rmrr(self.rmrr_table@, 0) == n + Self::spec_count_rmrr(
                    self.rmrr_table@,
                    n as nat,
                ),
            decreases HV_MAX_RMRR_RANGE - n,
        {
            n = n + 1;
        }
        slice_subrange(self.rmrr_table.as_slice(), 0, n)
    }

    /// The memory regions of the system.
    pub fn mem_regions(&self) -> (r: &[HvMemoryRegion])
        ensures
            r@ == self.regions@,
    {
        self.regions.as_slice()
    }
}

} // verus!
