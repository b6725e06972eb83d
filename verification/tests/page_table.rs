use hv_arch::arch::arm::s1pt::{EnclaveGuestPageTableUnlocked, PTEntry, S1PTInstr};
use hv_arch::arch::arm::s2pt::GuestPageTableUnlocked;
use hv_arch::memory::flags::MemFlags;
use hv_arch::memory::page_table::Level4PageTableUnlocked;
use hv_arch::memory::paging::{GenericPTE, PageTableLevel, PagingError, PagingOp};

type S1Table = Level4PageTableUnlocked<PTEntry, S1PTInstr>;

const POOL: u64 = 0x10_0000;

fn pt_flags(bits: u64) -> MemFlags {
    MemFlags { bits }
}

fn pt_rw() -> MemFlags {
    pt_flags(MemFlags::READ | MemFlags::WRITE)
}

fn pt_new(capacity: usize) -> S1Table {
    match S1Table::new(POOL, capacity) {
        Ok(pt) => pt,
        Err(e) => panic!("no table: {:?}", e),
    }
}

#[test]
fn new_table_maps_nothing() {
    let pt = pt_new(8);
    assert_eq!(pt.root_paddr(), POOL);
    assert_eq!(pt.capacity(), 8);
    assert_eq!(pt.table_count(), 1);
    for v in [0u64, 0x1000, 0x7fff_ffff_f000, 0xffff_ffff_ffff_f000] {
        assert_eq!(pt.lookup(v), Err(PagingError::NotMapped));
    }
}

#[test]
fn new_rejects_an_empty_pool() {
    assert!(matches!(S1Table::new(POOL, 0), Err(PagingError::NoMemory)));
}

#[test]
fn new_rejects_an_unaligned_root() {
    assert!(matches!(S1Table::new(POOL + 8, 4), Err(PagingError::NotAligned)));
}

#[test]
fn new_rejects_a_pool_that_descriptors_cannot_point_to() {
    assert!(matches!(S1Table::new(0xffff_ffff_f000, 2), Err(PagingError::OutOfRange)));
    assert!(matches!(S1Table::new(1 << 48, 1), Err(PagingError::OutOfRange)));
    assert!(matches!(
        S1Table::new(0xffff_ffff_ffff_f000, 2),
        Err(PagingError::OutOfRange)
    ));
    assert!(S1Table::new(0xffff_ffff_f000, 1).is_ok());
}

#[test]
fn map_then_lookup_then_update_flags() {
    let mut pt = pt_new(8);
    assert_eq!(pt.map(0x1000, 0x2000, pt_rw(), PageTableLevel::L1), Ok(()));
    let (entry, level) = pt.lookup(0x1000).unwrap();
    assert_eq!(level, PageTableLevel::L1);
    assert_eq!(entry.addr(), 0x2000);
    assert_eq!(entry.flags(), pt_rw());
    assert_eq!(entry.bits(), 0x0060_0000_0000_2707);

    let ops = pt.update_flags(0x1000, pt_flags(MemFlags::READ)).unwrap();
    assert_eq!(
        ops,
        vec![PagingOp::InvalidatePage(0x1000), PagingOp::DataBarrier, PagingOp::InstructionBarrier]
    );
    let (entry, level) = pt.lookup(0x1000).unwrap();
    assert_eq!(level, PageTableLevel::L1);
    assert_eq!(entry.flags(), pt_flags(MemFlags::READ));
    assert_eq!(entry.addr(), 0x2000);
}

#[test]
fn map_allocates_one_table_per_missing_level() {
    let mut pt = pt_new(16);
    assert_eq!(pt.map(0x1000, 0x2000, pt_rw(), PageTableLevel::L1), Ok(()));
    assert_eq!(pt.table_count(), 4);
    assert_eq!(pt.map(0x2000, 0x3000, pt_rw(), PageTableLevel::L1), Ok(()));
    assert_eq!(pt.table_count(), 4);
    assert_eq!(pt.map(0x20_0000, 0x4000, pt_rw(), PageTableLevel::L1), Ok(()));
    assert_eq!(pt.table_count(), 5);
    assert_eq!(pt.map(0x4000_0000, 0x5000, pt_rw(), PageTableLevel::L1), Ok(()));
    assert_eq!(pt.table_count(), 7);
    assert_eq!(pt.map(0x80_0000_0000, 0x6000, pt_rw(), PageTableLevel::L1), Ok(()));
    assert_eq!(pt.table_count(), 10);
    assert_eq!(pt.lookup(0x1000).unwrap().0.addr(), 0x2000);
    assert_eq!(pt.lookup(0x2000).unwrap().0.addr(), 0x3000);
    assert_eq!(pt.lookup(0x20_0000).unwrap().0.addr(), 0x4000);
    assert_eq!(pt.lookup(0x4000_0000).unwrap().0.addr(), 0x5000);
    assert_eq!(pt.lookup(0x80_0000_0000).unwrap().0.addr(), 0x6000);
    assert_eq!(pt.lookup(0x3000), Err(PagingError::NotMapped));
}

#[test]
fn lookup_covers_the_whole_page_and_nothing_else() {
    let mut pt = pt_new(8);
    assert_eq!(pt.map(0x5000, 0x9000, pt_rw(), PageTableLevel::L1), Ok(()));
    let at_start = pt.lookup(0x5000).unwrap();
    assert_eq!(pt.lookup(0x5fff), Ok(at_start));
    assert_eq!(pt.lookup(0x5abc), Ok(at_start));
    assert_eq!(pt.lookup(0x4fff), Err(PagingError::NotMapped));
    assert_eq!(pt.lookup(0x6000), Err(PagingError::NotMapped));
}

#[test]
fn lookup_ignores_address_bits_above_the_low_48() {
    let mut pt = pt_new(8);
    assert_eq!(pt.map(0x5000, 0x9000, pt_rw(), PageTableLevel::L1), Ok(()));
    assert_eq!(pt.lookup(0xffff_0000_0000_5000), pt.lookup(0x5000));
}

#[test]
fn map_block_at_level_two() {
    let mut pt = pt_new(8);
    assert_eq!(pt.map(0x40_0000, 0x8000_0000, pt_rw(), PageTableLevel::L2), Ok(()));
    assert_eq!(pt.table_count(), 3);
    let (entry, level) = pt.lookup(0x40_0000).unwrap();
    assert_eq!(level, PageTableLevel::L2);
    assert_eq!(entry.addr(), 0x8000_0000);
    assert!(entry.is_leaf());
    assert_eq!(entry.bits(), 0x0060_0000_8000_0705);
    assert_eq!(pt.lookup(0x5f_ffff), Ok((entry, level)));
    assert_eq!(pt.lookup(0x60_0000), Err(PagingError::NotMapped));
    assert_eq!(pt.lookup(0x3f_ffff), Err(PagingError::NotMapped));
}

#[test]
fn map_block_at_level_three() {
    let mut pt = pt_new(8);
    assert_eq!(pt.map(0x4000_0000, 0x1_0000_0000, pt_rw(), PageTableLevel::L3), Ok(()));
    assert_eq!(pt.table_count(), 2);
    let (entry, level) = pt.lookup(0x4000_0000 + 0x1234_5678).unwrap();
    assert_eq!(level, PageTableLevel::L3);
    assert_eq!(entry.addr(), 0x1_0000_0000);
    assert_eq!(pt.lookup(0x8000_0000), Err(PagingError::NotMapped));
}

#[test]
fn map_block_at_root_level_is_rejected_and_changes_nothing() {
    let mut pt = pt_new(8);
    assert_eq!(pt.map(0x1000, 0x2000, pt_rw(), PageTableLevel::L1), Ok(()));
    let before = pt.lookup(0x1000);
    let count = pt.table_count();
    assert_eq!(
        pt.map(0x80_0000_0000, 0x80_0000_0000, pt_rw(), PageTableLevel::L4),
        Err(PagingError::HugeNotAllowed)
    );
    assert_eq!(pt.map(0, 0, pt_rw(), PageTableLevel::L4), Err(PagingError::HugeNotAllowed));
    assert_eq!(pt.lookup(0x1000), before);
    assert_eq!(pt.table_count(), count);
    assert_eq!(pt.lookup(0x80_0000_0000), Err(PagingError::NotMapped));
}

#[test]
fn map_rejects_unaligned_addresses() {
    let mut pt = pt_new(8);
    assert_eq!(pt.map(0x1001, 0x2000, pt_rw(), PageTableLevel::L1), Err(PagingError::NotAligned));
    assert_eq!(pt.map(0x1000, 0x2008, pt_rw(), PageTableLevel::L1), Err(PagingError::NotAligned));
    assert_eq!(
        pt.map(0x20_1000, 0x40_0000, pt_rw(), PageTableLevel::L2),
        Err(PagingError::NotAligned)
    );
    assert_eq!(
        pt.map(0x20_0000, 0x40_1000, pt_rw(), PageTableLevel::L2),
        Err(PagingError::NotAligned)
    );
    assert_eq!(
        pt.map(0x4000_0000, 0x20_0000, pt_rw(), PageTableLevel::L3),
        Err(PagingError::NotAligned)
    );
    assert_eq!(pt.table_count(), 1);
}

#[test]
fn map_rejects_a_physical_address_outside_the_field() {
    let mut pt = pt_new(8);
    assert_eq!(pt.map(0x1000, 1 << 48, pt_rw(), PageTableLevel::L1), Err(PagingError::OutOfRange));
    assert_eq!(
        pt.map(0x1000, 0xffff_0000_0000_2000, pt_rw(), PageTableLevel::L1),
        Err(PagingError::OutOfRange)
    );
    assert_eq!(pt.table_count(), 1);
    assert_eq!(pt.lookup(0x1000), Err(PagingError::NotMapped));
}

#[test]
fn map_twice_is_already_mapped() {
    let mut pt = pt_new(8);
    assert_eq!(pt.map(0x1000, 0x2000, pt_rw(), PageTableLevel::L1), Ok(()));
    assert_eq!(
        pt.map(0x1000, 0x3000, pt_flags(MemFlags::READ), PageTableLevel::L1),
        Err(PagingError::AlreadyMapped)
    );
    let (entry, _) = pt.lookup(0x1000).unwrap();
    assert_eq!(entry.addr(), 0x2000);
    assert_eq!(entry.flags(), pt_rw());
}

#[test]
fn map_block_over_a_table_is_already_mapped() {
    let mut pt = pt_new(8);
    assert_eq!(pt.map(0x1000, 0x2000, pt_rw(), PageTableLevel::L1), Ok(()));
    assert_eq!(pt.map(0, 0x20_0000, pt_rw(), PageTableLevel::L2), Err(PagingError::AlreadyMapped));
    assert_eq!(pt.lookup(0x1000).unwrap().0.addr(), 0x2000);
}

#[test]
fn map_below_a_block_is_mapped_to_huge_page() {
    let mut pt = pt_new(8);
    assert_eq!(pt.map(0x4000_0000, 0x4000_0000, pt_rw(), PageTableLevel::L3), Ok(()));
    assert_eq!(
        pt.map(0x4000_1000, 0x2000, pt_rw(), PageTableLevel::L1),
        Err(PagingError::MappedToHugePage)
    );
    assert_eq!(
        pt.map(0x4020_0000, 0x20_0000, pt_rw(), PageTableLevel::L2),
        Err(PagingError::MappedToHugePage)
    );
    assert_eq!(pt.table_count(), 2);
}

#[test]
fn map_without_room_changes_nothing() {
    let mut pt = pt_new(3);
    assert_eq!(pt.map(0x1000, 0x2000, pt_rw(), PageTableLevel::L1), Err(PagingError::NoMemory));
    assert_eq!(pt.table_count(), 1);
    assert_eq!(pt.lookup(0x1000), Err(PagingError::NotMapped));
    assert_eq!(pt.map(0x20_0000, 0x20_0000, pt_rw(), PageTableLevel::L2), Ok(()));
    assert_eq!(pt.table_count(), 3);
    assert_eq!(pt.map(0x1000, 0x2000, pt_rw(), PageTableLevel::L1), Err(PagingError::NoMemory));
    assert_eq!(pt.table_count(), 3);
    assert_eq!(pt.lookup(0x20_0000).unwrap().0.addr(), 0x20_0000);
    assert_eq!(pt.lookup(0x1000), Err(PagingError::NotMapped));
}

#[test]
fn map_fills_the_pool_exactly() {
    let mut pt = pt_new(4);
    assert_eq!(pt.map(0x1000, 0x2000, pt_rw(), PageTableLevel::L1), Ok(()));
    assert_eq!(pt.table_count(), 4);
    assert_eq!(pt.map(0x2000, 0x3000, pt_rw(), PageTableLevel::L1), Ok(()));
    assert_eq!(
        pt.map(0x20_0000, 0x3000, pt_rw(), PageTableLevel::L1),
        Err(PagingError::NoMemory)
    );
}

#[test]
fn map_not_present_is_looked_up_as_not_present() {
    let mut pt = pt_new(8);
    let np = pt_flags(MemFlags::NO_PRESENT);
    assert_eq!(pt.map(0x1000, 0x2000, np, PageTableLevel::L1), Ok(()));
    let (entry, level) = pt.lookup(0x1000).unwrap();
    assert_eq!(level, PageTableLevel::L1);
    assert!(!entry.is_present());
    assert_eq!(entry.flags(), np);
    assert_eq!(entry.addr(), 0x2000);
}

#[test]
fn map_keeps_other_mappings() {
    let mut pt = pt_new(16);
    assert_eq!(pt.map(0x1000, 0x2000, pt_rw(), PageTableLevel::L1), Ok(()));
    assert_eq!(pt.map(0x40_0000, 0x60_0000, pt_flags(MemFlags::READ), PageTableLevel::L2), Ok(()));
    let a = pt.lookup(0x1000);
    let b = pt.lookup(0x40_0000);
    assert_eq!(pt.map(0x3000, 0x7000, pt_rw(), PageTableLevel::L1), Ok(()));
    assert_eq!(pt.map(0x8000_0000, 0x8000_0000, pt_rw(), PageTableLevel::L3), Ok(()));
    assert_eq!(pt.lookup(0x1000), a);
    assert_eq!(pt.lookup(0x40_0000), b);
}

#[test]
fn unmap_returns_the_mapping_and_the_invalidation() {
    let mut pt = pt_new(8);
    assert_eq!(pt.map(0x1000, 0x2000, pt_rw(), PageTableLevel::L1), Ok(()));
    assert_eq!(pt.map(0x2000, 0x3000, pt_rw(), PageTableLevel::L1), Ok(()));
    let (paddr, level, ops) = pt.unmap(0x1234).unwrap();
    assert_eq!(paddr, 0x2000);
    assert_eq!(level, PageTableLevel::L1);
    assert_eq!(
        ops,
        vec![PagingOp::InvalidatePage(0x1234), PagingOp::DataBarrier, PagingOp::InstructionBarrier]
    );
    assert_eq!(pt.lookup(0x1000), Err(PagingError::NotMapped));
    assert_eq!(pt.lookup(0x2000).unwrap().0.addr(), 0x3000);
    assert_eq!(pt.table_count(), 4);
}

#[test]
fn unmap_of_a_block() {
    let mut pt = pt_new(8);
    assert_eq!(pt.map(0x40_0000, 0x80_0000, pt_rw(), PageTableLevel::L2), Ok(()));
    let (paddr, level, _) = pt.unmap(0x41_2345).unwrap();
    assert_eq!(paddr, 0x80_0000);
    assert_eq!(level, PageTableLevel::L2);
    assert_eq!(pt.lookup(0x40_0000), Err(PagingError::NotMapped));
}

#[test]
fn unmap_of_nothing_is_not_mapped() {
    let mut pt = pt_new(8);
    assert!(matches!(pt.unmap(0x1000), Err(PagingError::NotMapped)));
    assert_eq!(pt.map(0x1000, 0x2000, pt_rw(), PageTableLevel::L1), Ok(()));
    assert!(matches!(pt.unmap(0x2000), Err(PagingError::NotMapped)));
    assert!(pt.unmap(0x1000).is_ok());
    assert!(matches!(pt.unmap(0x1000), Err(PagingError::NotMapped)));
    assert_eq!(pt.table_count(), 4);
}

#[test]
fn map_again_after_unmap_needs_no_table() {
    let mut pt = pt_new(4);
    assert_eq!(pt.map(0x1000, 0x2000, pt_rw(), PageTableLevel::L1), Ok(()));
    assert!(pt.unmap(0x1000).is_ok());
    assert_eq!(pt.map(0x1000, 0x5000, pt_flags(MemFlags::READ), PageTableLevel::L1), Ok(()));
    assert_eq!(pt.table_count(), 4);
    let (entry, _) = pt.lookup(0x1000).unwrap();
    assert_eq!(entry.addr(), 0x5000);
    assert_eq!(entry.flags(), pt_flags(MemFlags::READ));
}

#[test]
fn update_flags_of_nothing_is_not_mapped() {
    let mut pt = pt_new(8);
    assert!(matches!(pt.update_flags(0x1000, pt_rw()), Err(PagingError::NotMapped)));
    assert_eq!(pt.table_count(), 1);
}

#[test]
fn update_flags_keeps_a_block_a_block() {
    let mut pt = pt_new(8);
    assert_eq!(pt.map(0x40_0000, 0x80_0000, pt_rw(), PageTableLevel::L2), Ok(()));
    assert!(pt.update_flags(0x40_0000, pt_flags(MemFlags::READ | MemFlags::EXECUTE)).is_ok());
    let (entry, level) = pt.lookup(0x5f_f000).unwrap();
    assert_eq!(level, PageTableLevel::L2);
    assert!(entry.is_leaf());
    assert_eq!(entry.addr(), 0x80_0000);
    assert_eq!(entry.flags(), pt_flags(MemFlags::READ | MemFlags::EXECUTE));
}

#[test]
fn update_flags_keeps_other_mappings() {
    let mut pt = pt_new(8);
    assert_eq!(pt.map(0x1000, 0x2000, pt_rw(), PageTableLevel::L1), Ok(()));
    assert_eq!(pt.map(0x2000, 0x3000, pt_rw(), PageTableLevel::L1), Ok(()));
    let other = pt.lookup(0x2000);
    assert!(pt.update_flags(0x1000, pt_flags(MemFlags::READ)).is_ok());
    assert_eq!(pt.lookup(0x2000), other);
}

#[test]
fn table_pointers_hold_frame_addresses_of_the_pool() {
    let mut pt = pt_new(8);
    assert_eq!(pt.map(0x1000, 0x2000, pt_rw(), PageTableLevel::L1), Ok(()));
    let view = pt.immut();
    assert_eq!(view.root_paddr(), POOL);
    assert_eq!(view.table_count(), 4);
    assert_eq!(view.lookup(0x1000), pt.lookup(0x1000));
}

#[test]
fn activate_and_flush_use_the_adapter() {
    let pt: EnclaveGuestPageTableUnlocked = pt_new(2);
    assert_eq!(
        pt.activate(),
        vec![
            PagingOp::SetRoot(POOL),
            PagingOp::InstructionBarrier,
            PagingOp::InvalidateAll,
            PagingOp::DataBarrier,
        ]
    );
    assert_eq!(
        pt.flush(None),
        vec![PagingOp::InvalidateAll, PagingOp::DataBarrier, PagingOp::InstructionBarrier]
    );
    assert_eq!(
        pt.flush(Some(0x3000)),
        vec![PagingOp::InvalidatePage(0x3000), PagingOp::DataBarrier, PagingOp::InstructionBarrier]
    );
}

#[test]
fn stage_two_table_end_to_end() {
    let mut pt = match GuestPageTableUnlocked::new(0x8000_0000, 8) {
        Ok(pt) => pt,
        Err(e) => panic!("no table: {:?}", e),
    };
    let rwx = pt_flags(MemFlags::READ | MemFlags::WRITE | MemFlags::EXECUTE);
    assert_eq!(pt.map(0x1000, 0x2000, rwx, PageTableLevel::L1), Ok(()));
    let (entry, level) = pt.lookup(0x1000).unwrap();
    assert_eq!(level, PageTableLevel::L1);
    assert_eq!(entry.addr(), 0x2000);
    assert_eq!(entry.flags(), rwx);
    assert_eq!(entry.bits(), 0x27ff);
    assert!(pt.update_flags(0x1000, pt_flags(MemFlags::READ)).is_ok());
    assert_eq!(pt.lookup(0x1000).unwrap().0.flags(), pt_flags(MemFlags::READ));
    assert_eq!(pt.lookup(0x1000).unwrap().0.addr(), 0x2000);
}

#[test]
fn level_arithmetic() {
    assert_eq!(PageTableLevel::L4.depth(), 0);
    assert_eq!(PageTableLevel::L1.depth(), 3);
    assert_eq!(PageTableLevel::from_depth(0), PageTableLevel::L4);
    assert_eq!(PageTableLevel::from_depth(1), PageTableLevel::L3);
    assert_eq!(PageTableLevel::from_depth(2), PageTableLevel::L2);
    assert_eq!(PageTableLevel::from_depth(3), PageTableLevel::L1);
    assert_eq!(PageTableLevel::from_depth(9), PageTableLevel::L1);
    assert_eq!(PageTableLevel::L4.span(), 1 << 39);
    assert_eq!(PageTableLevel::L3.span(), 1 << 30);
    assert_eq!(PageTableLevel::L2.span(), 1 << 21);
    assert_eq!(PageTableLevel::L1.span(), 1 << 12);
    assert_eq!(PageTableLevel::L4.next(), Some(PageTableLevel::L3));
    assert_eq!(PageTableLevel::L1.next(), None);
    assert!(!PageTableLevel::L4.allows_block());
    assert!(PageTableLevel::L3.allows_block());
    assert!(PageTableLevel::L2.allows_block());
    assert!(!PageTableLevel::L1.allows_block());
    let v: u64 = (5 << 39) | (6 << 30) | (7 << 21) | (8 << 12) | 9;
    assert_eq!(PageTableLevel::L4.index(v), 5);
    assert_eq!(PageTableLevel::L3.index(v), 6);
    assert_eq!(PageTableLevel::L2.index(v), 7);
    assert_eq!(PageTableLevel::L1.index(v), 8);
    assert_eq!(PageTableLevel::L4.index(u64::MAX), 511);
    assert!(PageTableLevel::L2.is_aligned(0x40_0000));
    assert!(!PageTableLevel::L2.is_aligned(0x40_1000));
}

#[test]
fn tables_are_handed_out_with_their_frames() {
    let mut pt = pt_new(8);
    assert_eq!(pt.map(0x20_3000, 0x7000, pt_rw(), PageTableLevel::L1), Ok(()));
    let view = pt.immut();
    assert_eq!(view.table_count(), 4);
    for index in 0..4 {
        assert_eq!(view.frame_paddr(index), POOL + 0x1000 * index as u64);
        assert_eq!(view.table(index).len(), 512);
    }
    let used = |index: usize| -> Vec<(usize, u64)> {
        view.table(index)
            .iter()
            .enumerate()
            .filter(|(_, e)| !e.is_unused())
            .map(|(slot, e)| (slot, e.bits()))
            .collect()
    };
    assert_eq!(used(0), vec![(0, (POOL + 0x1000) | 0x3)]);
    assert_eq!(used(1), vec![(0, (POOL + 0x2000) | 0x3)]);
    assert_eq!(used(2), vec![(1, (POOL + 0x3000) | 0x3)]);
    assert_eq!(used(3), vec![(3, 0x0060_0000_0000_7707)]);
}
