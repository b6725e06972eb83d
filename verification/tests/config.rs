use hv_arch::config::{
    HvIommuInfo, HvMemoryRegion, HvRmrrRange, HvSystemConfig, HV_MAX_IOMMU_UNITS,
    HV_MAX_RMRR_RANGE, MEMORY_REGION_SIZE, SYSTEM_CONFIG_SIZE,
};
use hv_arch::error::{HvError, HvErrorNum};
use hv_arch::memory::flags::MemFlags;

fn cfg_region(bytes: &mut Vec<u8>, phys: u64, virt: u64, size: u64, flags: u64) {
    bytes.extend_from_slice(&phys.to_le_bytes());
    bytes.extend_from_slice(&virt.to_le_bytes());
    bytes.extend_from_slice(&size.to_le_bytes());
    bytes.extend_from_slice(&flags.to_le_bytes());
}

fn cfg_block(iommu: &[(u64, u32)], rmrr: &[(u64, u64)], regions: &[(u64, u64, u64, u64)]) -> Vec<u8> {
    let mut bytes = Vec::new();
    cfg_region(&mut bytes, 0x1_0000_0000, 0xffff_ff00_0000_0000, 0x400_0000, 0x7);
    for i in 0..HV_MAX_IOMMU_UNITS {
        let (base, size) = if i < iommu.len() { iommu[i] } else { (0, 0) };
        bytes.extend_from_slice(&base.to_le_bytes());
        bytes.extend_from_slice(&size.to_le_bytes());
    }
    for i in 0..HV_MAX_RMRR_RANGE {
        let (base, limit) = if i < rmrr.len() { rmrr[i] } else { (0, 0) };
        bytes.extend_from_slice(&base.to_le_bytes());
        bytes.extend_from_slice(&limit.to_le_bytes());
    }
    bytes.extend_from_slice(&(regions.len() as u32).to_le_bytes());
    assert_eq!(bytes.len(), SYSTEM_CONFIG_SIZE);
    for r in regions {
        cfg_region(&mut bytes, r.0, r.1, r.2, r.3);
    }
    bytes
}

fn cfg_parse(bytes: &[u8]) -> HvSystemConfig {
    match HvSystemConfig::from_bytes(bytes) {
        Ok(c) => c,
        Err(e) => panic!("no configuration: {:?}", e),
    }
}

#[test]
fn packed_sizes() {
    assert_eq!(MEMORY_REGION_SIZE, 8 + 8 + 8 + 8);
    assert_eq!(
        SYSTEM_CONFIG_SIZE,
        MEMORY_REGION_SIZE + HV_MAX_IOMMU_UNITS * 12 + HV_MAX_RMRR_RANGE * 16 + 4
    );
}

#[test]
fn from_bytes_reads_every_field() {
    let bytes = cfg_block(
        &[(0xfed9_0000, 0x1000), (0xfed9_1000, 0x2000)],
        &[(0x7000_0000, 0x7fff_ffff)],
        &[(0x1000, 0x2000, 0x3000, 0x3), (0xa000, 0xb000, 0xc000, 0x11)],
    );
    let config = cfg_parse(&bytes);
    assert_eq!(
        config.hypervisor_memory,
        HvMemoryRegion {
            phys_start: 0x1_0000_0000,
            virt_start: 0xffff_ff00_0000_0000,
            size: 0x400_0000,
            flags: MemFlags { bits: 0x7 },
        }
    );
    assert_eq!(config.iommu_table[0], HvIommuInfo { base: 0xfed9_0000, size: 0x1000 });
    assert_eq!(config.iommu_table[1], HvIommuInfo { base: 0xfed9_1000, size: 0x2000 });
    assert_eq!(config.iommu_table[2], HvIommuInfo { base: 0, size: 0 });
    assert_eq!(config.rmrr_table[0], HvRmrrRange { base: 0x7000_0000, limit: 0x7fff_ffff });
    assert_eq!(
        config.mem_regions(),
        &[
            HvMemoryRegion {
                phys_start: 0x1000,
                virt_start: 0x2000,
                size: 0x3000,
                flags: MemFlags { bits: 0x3 },
            },
            HvMemoryRegion {
                phys_start: 0xa000,
                virt_start: 0xb000,
                size: 0xc000,
                flags: MemFlags { bits: 0x11 },
            },
        ][..]
    );
}

#[test]
fn size_counts_the_memory_regions() {
    assert_eq!(cfg_parse(&cfg_block(&[], &[], &[])).size(), 292);
    let three = cfg_block(&[], &[], &[(1, 2, 3, 4), (5, 6, 7, 8), (9, 10, 11, 12)]);
    assert_eq!(cfg_parse(&three).size(), 292 + 3 * 32);
    assert_eq!(three.len() as u64, cfg_parse(&three).size());
}

#[test]
fn iommu_units_end_at_the_first_zero_base() {
    let none = cfg_parse(&cfg_block(&[], &[], &[]));
    assert_eq!(none.iommu_units().len(), 0);
    let two = cfg_parse(&cfg_block(&[(0x10, 1), (0x20, 2), (0, 3), (0x40, 4)], &[], &[]));
    assert_eq!(
        two.iommu_units(),
        &[HvIommuInfo { base: 0x10, size: 1 }, HvIommuInfo { base: 0x20, size: 2 }][..]
    );
    let all: Vec<(u64, u32)> = (1..=16).map(|i| (i as u64 * 0x1000, i as u32)).collect();
    let full = cfg_parse(&cfg_block(&all, &[], &[]));
    assert_eq!(full.iommu_units().len(), 16);
    assert_eq!(full.iommu_units()[15], HvIommuInfo { base: 0x10000, size: 16 });
}

#[test]
fn rmrr_ranges_end_at_the_first_zero_limit() {
    let none = cfg_parse(&cfg_block(&[], &[], &[]));
    assert_eq!(none.rmrr_ranges().len(), 0);
    let one = cfg_parse(&cfg_block(&[], &[(0, 0xfff), (0x2000, 0), (0x3000, 0x3fff)], &[]));
    assert_eq!(one.rmrr_ranges(), &[HvRmrrRange { base: 0, limit: 0xfff }][..]);
    let full = cfg_parse(&cfg_block(&[], &[(1, 2), (3, 4), (5, 6), (7, 8)], &[]));
    assert_eq!(full.rmrr_ranges().len(), 4);
    assert_eq!(full.rmrr_ranges()[3], HvRmrrRange { base: 7, limit: 8 });
}

#[test]
fn from_bytes_rejects_a_short_block() {
    let expected = HvError { num: HvErrorNum::EINVAL, msg: None };
    let bytes = cfg_block(&[], &[], &[(1, 2, 3, 4)]);
    assert_eq!(HvSystemConfig::from_bytes(&bytes[..291]).err(), Some(expected));
    assert_eq!(HvSystemConfig::from_bytes(&bytes[..292]).err(), Some(expected));
    assert_eq!(HvSystemConfig::from_bytes(&bytes[..323]).err(), Some(expected));
    assert_eq!(HvSystemConfig::from_bytes(&[]).err(), Some(expected));
    assert!(HvSystemConfig::from_bytes(&bytes).is_ok());
}

#[test]
fn from_bytes_ignores_trailing_bytes() {
    let mut bytes = cfg_block(&[], &[], &[(1, 2, 3, 4)]);
    bytes.extend_from_slice(&[0xff; 40]);
    let config = cfg_parse(&bytes);
    assert_eq!(config.mem_regions().len(), 1);
    assert_eq!(config.size(), 324);
}

#[test]
fn get_finds_the_block_behind_core_and_per_cpu_areas() {
    let block = cfg_block(&[(0x10, 1)], &[], &[(1, 2, 3, 4)]);
    let mut image = vec![0xeeu8; 0x100 + 3 * 0x40];
    image.extend_from_slice(&block);
    let config = match HvSystemConfig::get(&image, 0x100, 3, 0x40) {
        Ok(c) => c,
        Err(e) => panic!("no configuration: {:?}", e),
    };
    assert_eq!(config.hypervisor_memory.phys_start, 0x1_0000_0000);
    assert_eq!(config.mem_regions().len(), 1);
    assert_eq!(config.iommu_units().len(), 1);
}

#[test]
fn get_rejects_an_image_that_ends_too_early() {
    let expected = HvError { num: HvErrorNum::EINVAL, msg: None };
    let block = cfg_block(&[], &[], &[]);
    let mut image = vec![0u8; 0x200];
    image.extend_from_slice(&block);
    assert_eq!(HvSystemConfig::get(&image, 0x1000, 0, 0x40).err(), Some(expected));
    assert_eq!(HvSystemConfig::get(&image, 0x100, 5, 0x1000).err(), Some(expected));
    assert_eq!(HvSystemConfig::get(&image, 0x100, 5, 0x40).err(), Some(expected));
    assert_eq!(HvSystemConfig::get(&image, 0x200, u32::MAX, usize::MAX).err(), Some(expected));
    assert!(HvSystemConfig::get(&image, 0x100, 4, 0x40).is_ok());
    assert!(HvSystemConfig::get(&image, 0x200, 7, 0).is_ok());
}
