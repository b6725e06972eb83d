use hv_arch::cpumask::{check_max_cpus, CpuMask, CPU_MASK_LEN, NR_CPUS};
use hv_arch::error::{HvError, HvErrorNum};

#[test]
fn mask_dimensions() {
    assert_eq!(NR_CPUS, 512);
    assert_eq!(CPU_MASK_LEN * 64, NR_CPUS);
}

#[test]
fn default_mask_is_empty() {
    let mask = CpuMask::default();
    for cpu in 0..NR_CPUS {
        assert_eq!(mask.test_cpu(cpu), 0);
    }
}

#[test]
fn set_cpu_affects_only_that_cpu() {
    for i in [0usize, 1, 63, 64, 65, 255, 511] {
        let mut mask = CpuMask::default();
        mask.set_cpu(i);
        for j in 0..NR_CPUS {
            assert_eq!(mask.test_cpu(j) != 0, i == j);
        }
    }
}

#[test]
fn test_cpu_returns_the_bit_in_its_word() {
    let mut mask = CpuMask::default();
    mask.set_cpu(70);
    assert_eq!(mask.test_cpu(70), 1 << 6);
    mask.set_cpu(63);
    assert_eq!(mask.test_cpu(63), 1 << 63);
    assert_eq!(mask.test_cpu(6), 0);
}

#[test]
fn clear_cpu_reverts_set_cpu() {
    let mut mask = CpuMask::default();
    mask.set_cpu(3);
    mask.set_cpu(200);
    mask.clear_cpu(3);
    assert_eq!(mask.test_cpu(3), 0);
    assert_ne!(mask.test_cpu(200), 0);
    mask.clear_cpu(200);
    for j in 0..NR_CPUS {
        assert_eq!(mask.test_cpu(j), 0);
    }
}

#[test]
fn clear_cpu_of_absent_cpu_changes_nothing() {
    let mut mask = CpuMask::default();
    mask.set_cpu(129);
    mask.clear_cpu(128);
    mask.clear_cpu(130);
    assert_ne!(mask.test_cpu(129), 0);
}

#[test]
fn clear_empties_the_mask() {
    let mut mask = CpuMask::default();
    for i in (0..NR_CPUS).step_by(7) {
        mask.set_cpu(i);
    }
    mask.clear();
    for j in 0..NR_CPUS {
        assert_eq!(mask.test_cpu(j), 0);
    }
}

#[test]
fn check_max_cpus_accepts_up_to_the_limit() {
    assert_eq!(check_max_cpus(0), Ok(()));
    assert_eq!(check_max_cpus(1), Ok(()));
    assert_eq!(check_max_cpus(512), Ok(()));
}

#[test]
fn check_max_cpus_rejects_more_than_the_limit() {
    let expected = Err(HvError { num: HvErrorNum::EINVAL, msg: None });
    assert_eq!(check_max_cpus(513), expected);
    assert_eq!(check_max_cpus(u32::MAX), expected);
}
