use hv_arch::memory::flags::MemFlags;

#[test]
fn flag_bits_have_their_places() {
    assert_eq!(MemFlags::READ, 1 << 0);
    assert_eq!(MemFlags::WRITE, 1 << 1);
    assert_eq!(MemFlags::EXECUTE, 1 << 2);
    assert_eq!(MemFlags::DMA, 1 << 3);
    assert_eq!(MemFlags::IO, 1 << 4);
    assert_eq!(MemFlags::COMM_REGION, 1 << 5);
    assert_eq!(MemFlags::NO_HUGEPAGES, 1 << 8);
    assert_eq!(MemFlags::USER, 1 << 9);
    assert_eq!(MemFlags::ENCRYPTED, 1 << 10);
    assert_eq!(MemFlags::NO_PRESENT, 1 << 11);
    assert_eq!(
        MemFlags::ALL,
        MemFlags::READ
            | MemFlags::WRITE
            | MemFlags::EXECUTE
            | MemFlags::DMA
            | MemFlags::IO
            | MemFlags::COMM_REGION
            | MemFlags::NO_HUGEPAGES
            | MemFlags::USER
            | MemFlags::ENCRYPTED
            | MemFlags::NO_PRESENT
    );
}

#[test]
fn empty_and_all() {
    assert_eq!(MemFlags::empty().bits(), 0);
    assert!(MemFlags::empty().is_empty());
    assert_eq!(MemFlags::all().bits(), 0xf3f);
    assert!(!MemFlags::all().is_empty());
}

#[test]
fn from_bits_truncate_drops_undefined_bits() {
    assert_eq!(MemFlags::from_bits_truncate(0xffff_ffff).bits(), 0xf3f);
    assert_eq!(MemFlags::from_bits_truncate(0x40 | 0x3).bits(), 0x3);
}

#[test]
fn from_bits_rejects_undefined_bits() {
    assert_eq!(MemFlags::from_bits(0x3), Some(MemFlags { bits: 0x3 }));
    assert_eq!(MemFlags::from_bits(0x40), None);
    assert_eq!(MemFlags::from_bits(0x1000), None);
    assert_eq!(MemFlags::from_bits(0), Some(MemFlags::empty()));
}

#[test]
fn contains_and_intersects() {
    let rw = MemFlags { bits: MemFlags::READ | MemFlags::WRITE };
    let r = MemFlags { bits: MemFlags::READ };
    let x = MemFlags { bits: MemFlags::EXECUTE };
    assert!(rw.contains(r));
    assert!(!r.contains(rw));
    assert!(rw.intersects(r));
    assert!(!rw.intersects(x));
    assert!(rw.contains(MemFlags::empty()));
    assert!(!rw.intersects(MemFlags::empty()));
}

#[test]
fn union_intersection_difference() {
    let rw = MemFlags { bits: 0x3 };
    let wx = MemFlags { bits: 0x6 };
    assert_eq!(rw.union(wx).bits(), 0x7);
    assert_eq!(rw.intersection(wx).bits(), 0x2);
    assert_eq!(rw.difference(wx).bits(), 0x1);
}

#[test]
fn insert_and_remove() {
    let mut f = MemFlags::empty();
    f.insert(MemFlags { bits: MemFlags::READ });
    f.insert(MemFlags { bits: MemFlags::USER });
    assert_eq!(f.bits(), 0x201);
    f.remove(MemFlags { bits: MemFlags::READ });
    assert_eq!(f.bits(), 0x200);
    f.remove(MemFlags { bits: MemFlags::WRITE });
    assert_eq!(f.bits(), 0x200);
}
