use hv_arch::arch::arm::s1pt::{DescriptorAttr, MemType, PTEntry, S1PTInstr, PHYS_ADDR_MASK};
use hv_arch::memory::flags::MemFlags;
use hv_arch::memory::paging::{GenericPTE, PageTableLevel, PagingError, PagingInstr, PagingOp};

fn s1_flags(bits: u64) -> MemFlags {
    MemFlags { bits }
}

const S1_R: u64 = MemFlags::READ;
const S1_W: u64 = MemFlags::WRITE;
const S1_X: u64 = MemFlags::EXECUTE;
const S1_U: u64 = MemFlags::USER;

#[test]
fn s1_attribute_bits_have_their_places() {
    assert_eq!(DescriptorAttr::VALID, 1 << 0);
    assert_eq!(DescriptorAttr::NON_BLOCK, 1 << 1);
    assert_eq!(DescriptorAttr::ATTR_INDX, 0b111 << 2);
    assert_eq!(DescriptorAttr::NS, 1 << 5);
    assert_eq!(DescriptorAttr::AP_EL0, 1 << 6);
    assert_eq!(DescriptorAttr::AP_RO, 1 << 7);
    assert_eq!(DescriptorAttr::INNER, 1 << 8);
    assert_eq!(DescriptorAttr::SHAREABLE, 1 << 9);
    assert_eq!(DescriptorAttr::AF, 1 << 10);
    assert_eq!(DescriptorAttr::NG, 1 << 11);
    assert_eq!(DescriptorAttr::CONTIGUOUS, 1 << 52);
    assert_eq!(DescriptorAttr::PXN, 1 << 53);
    assert_eq!(DescriptorAttr::UXN, 1 << 54);
    assert_eq!(DescriptorAttr::PXN_TABLE, 1 << 59);
    assert_eq!(DescriptorAttr::XN_TABLE, 1 << 60);
    assert_eq!(DescriptorAttr::AP_NO_EL0_TABLE, 1 << 61);
    assert_eq!(DescriptorAttr::AP_NO_WRITE_TABLE, 1 << 62);
    assert_eq!(DescriptorAttr::NS_TABLE, 1 << 63);
    assert_eq!(DescriptorAttr::ATTR_INDEX_MASK, 0b111_00);
    assert_eq!(PHYS_ADDR_MASK, 0xffff_ffff_ffff & !0xfff);
    assert_eq!(DescriptorAttr::ALL & PHYS_ADDR_MASK, 0);
}

#[test]
fn s1_from_mem_type() {
    assert_eq!(DescriptorAttr::from_mem_type(MemType::Device).bits(), 0);
    assert_eq!(
        DescriptorAttr::from_mem_type(MemType::Normal).bits(),
        (1 << 2) | DescriptorAttr::INNER | DescriptorAttr::SHAREABLE
    );
}

#[test]
fn s1_mem_type_reads_the_index() {
    assert_eq!(DescriptorAttr { bits: 0 }.mem_type(), MemType::Device);
    assert_eq!(DescriptorAttr { bits: 1 << 2 }.mem_type(), MemType::Normal);
    assert_eq!(DescriptorAttr { bits: 0xffff_ffff_ffff_ffe3 }.mem_type(), MemType::Device);
    assert_eq!(DescriptorAttr { bits: 0 }.mem_type_checked(), Ok(MemType::Device));
    assert_eq!(DescriptorAttr { bits: 0x304 }.mem_type_checked(), Ok(MemType::Normal));
}

#[test]
fn s1_mem_type_checked_rejects_unknown_index() {
    for idx in 2u64..8 {
        assert_eq!(
            DescriptorAttr { bits: idx << 2 }.mem_type_checked(),
            Err(PagingError::UnknownMemType)
        );
    }
}

#[test]
fn s1_attr_set_operations() {
    let mut attr = DescriptorAttr::from_bits_truncate(u64::MAX);
    assert_eq!(attr.bits(), DescriptorAttr::ALL);
    attr.remove(DescriptorAttr::NON_BLOCK);
    assert!(!attr.contains(DescriptorAttr::NON_BLOCK));
    assert!(attr.contains(DescriptorAttr::VALID | DescriptorAttr::AF));
    attr.insert(DescriptorAttr::NON_BLOCK);
    assert!(attr.intersects(DescriptorAttr::NON_BLOCK));
    assert!(!DescriptorAttr { bits: 0 }.intersects(DescriptorAttr::ALL));
}

#[test]
fn s1_encode_exact_bits() {
    let enc = |bits: u64| DescriptorAttr::from(s1_flags(bits)).bits();
    assert_eq!(enc(S1_R | S1_W), 0x0060_0000_0000_0705);
    assert_eq!(enc(S1_R), 0x0060_0000_0000_0785);
    assert_eq!(enc(S1_R | S1_X), 0x0040_0000_0000_0785);
    assert_eq!(enc(S1_R | S1_X | S1_U), 0x0020_0000_0000_07c5);
    assert_eq!(enc(S1_R | S1_W | S1_U), 0x0060_0000_0000_0745);
    assert_eq!(enc(S1_R | S1_W | MemFlags::IO), 0x0060_0000_0000_0401);
    assert_eq!(enc(MemFlags::NO_PRESENT), 0x0060_0000_0000_0384);
}

#[test]
fn s1_decode_policy() {
    let dec = |bits: u64| MemFlags::from(DescriptorAttr { bits }).bits();
    assert_eq!(dec(0), MemFlags::NO_PRESENT);
    assert_eq!(dec(DescriptorAttr::AP_EL0 | DescriptorAttr::AF), MemFlags::NO_PRESENT);
    assert_eq!(dec(DescriptorAttr::VALID), S1_R | S1_W | S1_X);
    assert_eq!(dec(DescriptorAttr::VALID | DescriptorAttr::AP_RO), S1_R | S1_X);
    assert_eq!(dec(DescriptorAttr::VALID | DescriptorAttr::PXN), S1_R | S1_W);
    assert_eq!(dec(DescriptorAttr::VALID | DescriptorAttr::UXN), S1_R | S1_W | S1_X);
    assert_eq!(dec(DescriptorAttr::VALID | DescriptorAttr::AP_EL0), S1_R | S1_W | S1_U | S1_X);
    assert_eq!(
        dec(DescriptorAttr::VALID | DescriptorAttr::AP_EL0 | DescriptorAttr::UXN),
        S1_R | S1_W | S1_U
    );
    assert_eq!(
        dec(DescriptorAttr::VALID | DescriptorAttr::AP_EL0 | DescriptorAttr::PXN),
        S1_R | S1_W | S1_U | S1_X
    );
}

#[test]
fn s1_round_trip_on_every_lossless_set() {
    let mut sets = vec![MemFlags::NO_PRESENT];
    for extra in 0u64..8 {
        let mut bits = S1_R;
        if extra & 1 != 0 {
            bits |= S1_W;
        }
        if extra & 2 != 0 {
            bits |= S1_X;
        }
        if extra & 4 != 0 {
            bits |= S1_U;
        }
        sets.push(bits);
    }
    assert_eq!(sets.len(), 9);
    for bits in sets {
        let attr = DescriptorAttr::from(s1_flags(bits));
        assert_eq!(MemFlags::from(attr), s1_flags(bits));
        for huge in [false, true] {
            let mut e = PTEntry::unused();
            e.set_addr(0x1234_5000);
            assert_eq!(e.set_flags(s1_flags(bits), huge), Ok(()));
            assert_eq!(e.flags(), s1_flags(bits));
            assert_eq!(e.addr(), 0x1234_5000);
            assert_eq!(e.is_leaf(), huge);
        }
    }
}

#[test]
fn s1_lossy_sets_decode_to_their_lossless_part() {
    let via = |bits: u64| MemFlags::from(DescriptorAttr::from(s1_flags(bits))).bits();
    assert_eq!(via(S1_W), S1_R | S1_W);
    assert_eq!(via(0), S1_R);
    assert_eq!(via(S1_R | MemFlags::IO | MemFlags::DMA), S1_R);
    assert_eq!(via(MemFlags::NO_PRESENT | S1_R | S1_W), MemFlags::NO_PRESENT);
}

#[test]
fn s1_encoding_selects_the_memory_type() {
    assert_eq!(DescriptorAttr::from(s1_flags(S1_R | MemFlags::IO)).mem_type(), MemType::Device);
    assert_eq!(DescriptorAttr::from(s1_flags(S1_R)).mem_type(), MemType::Normal);
    let mut e = PTEntry::unused();
    assert_eq!(e.set_flags(s1_flags(S1_R | S1_W | MemFlags::IO), false), Ok(()));
    assert_eq!(e.attr().mem_type_checked(), Ok(MemType::Device));
}

#[test]
fn s1_cleared_entry_is_unused_and_not_present() {
    let mut e = PTEntry::from_raw(0xffff_ffff_ffff_ffff);
    e.clear();
    assert_eq!(e.bits(), 0);
    assert!(e.is_unused());
    assert!(!e.is_present());
    assert_eq!(e.flags(), s1_flags(MemFlags::NO_PRESENT));
    assert_eq!(PTEntry::unused(), e);
}

#[test]
fn s1_set_addr_keeps_the_attributes() {
    let mut e = PTEntry::unused();
    assert_eq!(e.set_flags(s1_flags(S1_R | S1_W), false), Ok(()));
    let before = e.bits();
    e.set_addr(0x0000_8765_4321_0000);
    assert_eq!(e.addr(), 0x0000_8765_4321_0000);
    assert_eq!(e.bits() & !PHYS_ADDR_MASK, before & !PHYS_ADDR_MASK);
    assert_eq!(e.flags(), s1_flags(S1_R | S1_W));
    e.set_addr(0xffff_0000_0000_1fff);
    assert_eq!(e.addr(), 0x1000);
    assert_eq!(e.bits() & !PHYS_ADDR_MASK, before & !PHYS_ADDR_MASK);
}

#[test]
fn s1_set_flags_keeps_the_address() {
    let mut e = PTEntry::unused();
    e.set_addr(0x2000);
    assert_eq!(e.set_flags(s1_flags(S1_R | S1_W), false), Ok(()));
    assert_eq!(e.bits(), 0x0060_0000_0000_2707);
    assert_eq!(e.set_flags(s1_flags(S1_R), true), Ok(()));
    assert_eq!(e.bits(), 0x0060_0000_0000_2785);
    assert_eq!(e.addr(), 0x2000);
}

#[test]
fn s1_leaf_is_told_by_the_block_bit() {
    assert!(PTEntry::from_raw(DescriptorAttr::VALID).is_leaf());
    assert!(!PTEntry::from_raw(DescriptorAttr::VALID | DescriptorAttr::NON_BLOCK).is_leaf());
    assert!(!PTEntry::from_raw(DescriptorAttr::NON_BLOCK).is_leaf());
}

#[test]
fn s1_set_table_builds_a_table_pointer() {
    let mut e = PTEntry::from_raw(0x0060_0000_0000_2707);
    assert_eq!(e.set_table(0x10_3000, PageTableLevel::L2, true), Ok(()));
    assert_eq!(e.bits(), 0x10_3003);
    assert!(e.is_present());
    assert!(!e.is_leaf());
    assert!(!e.is_unused());
    assert_eq!(e.addr(), 0x10_3000);
    assert_eq!(e.set_table(0x10_4000, PageTableLevel::L1, false), Ok(()));
    assert_eq!(e.bits(), 0x10_4002);
    assert!(!e.is_present());
}

#[test]
fn s1_set_table_rejects_an_address_outside_the_field() {
    let mut e = PTEntry::from_raw(0x10_3003);
    assert_eq!(e.set_table(0x10_3001, PageTableLevel::L2, true), Err(PagingError::OutOfRange));
    assert_eq!(e.bits(), 0x10_3003);
    assert_eq!(e.set_table(1 << 48, PageTableLevel::L2, true), Err(PagingError::OutOfRange));
    assert_eq!(e.bits(), 0x10_3003);
}

#[test]
fn s1_present_and_access_bits() {
    let mut e = PTEntry::from_raw(0x0060_0000_0000_2707);
    assert!(e.is_present());
    assert!(e.is_young());
    e.set_old();
    assert_eq!(e.bits(), 0x0060_0000_0000_2307);
    assert!(!e.is_young());
    assert_eq!(e.set_notpresent(), Ok(()));
    assert_eq!(e.bits(), 0x0060_0000_0000_2306);
    assert!(!e.is_present());
    assert!(!e.is_unused());
    assert_eq!(e.flags().bits(), MemFlags::NO_PRESENT);
    assert_eq!(e.set_present(), Ok(()));
    assert_eq!(e.bits(), 0x0060_0000_0000_2307);
    assert_eq!(e.addr(), 0x2000);
}

#[test]
fn s1_activate_sequence() {
    assert_eq!(
        S1PTInstr::activate(0x4000_0000),
        vec![
            PagingOp::SetRoot(0x4000_0000),
            PagingOp::InstructionBarrier,
            PagingOp::InvalidateAll,
            PagingOp::DataBarrier,
        ]
    );
}

#[test]
fn s1_flush_sequences() {
    assert_eq!(
        S1PTInstr::flush(Some(0x7000)),
        vec![PagingOp::InvalidatePage(0x7000), PagingOp::DataBarrier, PagingOp::InstructionBarrier]
    );
    assert_eq!(
        S1PTInstr::flush(None),
        vec![PagingOp::InvalidateAll, PagingOp::DataBarrier, PagingOp::InstructionBarrier]
    );
}
