use hv_arch::arch::x86_64::context::{
    ContextSwitch, CpuState, GuestRegisters, HvTables, HwOp, LinuxContext, Msr, CR0_FLAGS, CR3_FLAGS, CR3_MAX, CR4_FLAGS,
    HV_PAT, SAVED_LINUX_REGS,
};
use hv_arch::arch::x86_64::segmentation::{
    descriptor_index, install_tss, release_tss, tss_available, DescriptorTablePointer, Segment,
    ACCESS_UNUSABLE,
};
use hv_arch::error::{HvError, HvErrorNum};

const KCODE: u64 = 0x00af_9b00_0000_ffff;
const KDATA: u64 = 0x00cf_9300_0000_ffff;
const TSS_LOW: u64 = 0x1200_8b34_5000_0067;
const TSS_HIGH: u64 = 0xffff_8800;

fn x86_gdt() -> Vec<u64> {
    vec![0, KCODE, KDATA, 0, TSS_LOW, TSS_HIGH]
}

fn x86_state() -> CpuState {
    CpuState {
        cs: 0x08,
        ds: 0x10,
        es: 0x10,
        ss: 0x10,
        fs: 0x00,
        gs: 0x00,
        tr: 0x20,
        gdt: DescriptorTablePointer { limit: 0x2f, base: 0xffff_8800_0000_1000 },
        idt: DescriptorTablePointer { limit: 0xfff, base: 0xffff_8800_0000_2000 },
        cr0: 0x8005_0033,
        cr3: 0x0000_0001_2345_6000,
        cr4: 0x0037_06e0,
        efer: 0xd01,
        star: 0x0023_0010_0000_0000,
        lstar: 0xffff_ffff_8100_0000,
        cstar: 0xffff_ffff_8100_1000,
        fmask: 0x4_7700,
        fs_base: 0x7f00_1234_0000,
        gs_base: 0xffff_8880_0000_0000,
        kernel_gsbase: 0x1234,
        pat: 0x0007_0406_0007_0406,
        mtrr_def_type: 0xc06,
    }
}

fn x86_tables() -> HvTables {
    HvTables {
        gdt: DescriptorTablePointer { limit: 0x3f, base: 0xffff_ff00_0010_0000 },
        idt: DescriptorTablePointer { limit: 0xfff, base: 0xffff_ff00_0010_1000 },
        kcode_selector: 0x08,
        tss_selector: 0x10,
    }
}

fn x86_capture(hw: &CpuState) -> (LinuxContext, Vec<HwOp>) {
    let regs = [15u64, 14, 13, 12, 0xb, 0xbb, 0xffff_ffff_8123_4567];
    match LinuxContext::load_from(&regs, 0xffff_c900_0000_1000, hw, &x86_gdt(), &x86_tables()) {
        Ok(r) => r,
        Err(e) => panic!("no snapshot: {:?}", e),
    }
}

#[test]
fn msr_addresses_match_the_architecture() {
    assert_eq!(Msr::Ia32Efer.address(), x86::msr::IA32_EFER);
    assert_eq!(Msr::Ia32Star.address(), x86::msr::IA32_STAR);
    assert_eq!(Msr::Ia32Lstar.address(), x86::msr::IA32_LSTAR);
    assert_eq!(Msr::Ia32Cstar.address(), x86::msr::IA32_CSTAR);
    assert_eq!(Msr::Ia32Fmask.address(), x86::msr::IA32_FMASK);
    assert_eq!(Msr::Ia32FsBase.address(), x86::msr::IA32_FS_BASE);
    assert_eq!(Msr::Ia32GsBase.address(), x86::msr::IA32_GS_BASE);
    assert_eq!(Msr::Ia32KernelGsBase.address(), x86::msr::IA32_KERNEL_GSBASE);
    assert_eq!(Msr::Ia32Pat.address(), x86::msr::IA32_PAT);
    assert_eq!(Msr::Ia32MtrrDefType.address(), x86::msr::IA32_MTRR_DEF_TYPE);
    assert_eq!(Msr::Ia32Efer.address(), 0xc000_0080);
    assert_eq!(Msr::Ia32Pat.address(), 0x277);
}

#[test]
fn control_register_masks_match_the_defined_flags() {
    assert_eq!(CR0_FLAGS, x86_64::registers::control::Cr0Flags::all().bits());
    assert_eq!(CR4_FLAGS, x86_64::registers::control::Cr4Flags::all().bits());
    assert_eq!(CR3_FLAGS, 0xfff);
    assert_eq!(CR3_MAX, (1 << 52) - 1);
    assert_eq!(HV_PAT, 0x07_0106);
    assert_eq!(SAVED_LINUX_REGS, 7);
}

#[test]
fn from_selector_reads_a_code_descriptor() {
    let seg = Segment::from_selector(0x08, &x86_gdt());
    assert_eq!(
        seg,
        Segment { selector: 0x08, base: 0, limit: 0xffff_ffff, access_rights: 0xa09b }
    );
    let with_rpl = Segment::from_selector(0x0b, &x86_gdt());
    assert_eq!(with_rpl.selector, 0x0b);
    assert_eq!(with_rpl.access_rights, 0xa09b);
}

#[test]
fn from_selector_reads_a_data_descriptor() {
    let seg = Segment::from_selector(0x10, &x86_gdt());
    assert_eq!(
        seg,
        Segment { selector: 0x10, base: 0, limit: 0xffff_ffff, access_rights: 0xc093 }
    );
}

#[test]
fn from_selector_reads_both_words_of_a_system_descriptor() {
    let seg = Segment::from_selector(0x20, &x86_gdt());
    assert_eq!(
        seg,
        Segment { selector: 0x20, base: 0xffff_8800_1234_5000, limit: 0x67, access_rights: 0x8b }
    );
}

#[test]
fn from_selector_byte_granular_limit_and_split_base() {
    let desc: u64 = 0xab40_9312_3456_789a | (0x5 << 48);
    let seg = Segment::from_selector(0x08, &[0, desc]);
    assert_eq!(seg.base, 0xab12_3456);
    assert_eq!(seg.limit, 0x5_789a);
    assert_eq!(seg.access_rights, 0x4093);
}

#[test]
fn from_selector_without_a_descriptor_is_unusable() {
    let unusable = |selector: u16| Segment {
        selector,
        base: 0,
        limit: 0,
        access_rights: ACCESS_UNUSABLE,
    };
    assert_eq!(Segment::from_selector(0, &x86_gdt()), unusable(0));
    assert_eq!(Segment::from_selector(0x18, &x86_gdt()), unusable(0x18));
    assert_eq!(Segment::from_selector(0x30, &x86_gdt()), unusable(0x30));
    assert_eq!(Segment::from_selector(0xfff8, &x86_gdt()), unusable(0xfff8));
    assert_eq!(Segment::from_selector(0x08, &[]), unusable(0x08));
    assert_eq!(Segment::from_selector(0x08, &[0, TSS_LOW]), unusable(0x08));
    assert_eq!(Segment::invalid(), unusable(0));
}

#[test]
fn load_from_captures_every_register() {
    let hw = x86_state();
    let (context, _) = x86_capture(&hw);
    assert_eq!(context.rsp, 0xffff_c900_0000_1000 + 56);
    assert_eq!(context.r15, 15);
    assert_eq!(context.r14, 14);
    assert_eq!(context.r13, 13);
    assert_eq!(context.r12, 12);
    assert_eq!(context.rbx, 0xb);
    assert_eq!(context.rbp, 0xbb);
    assert_eq!(context.rip, 0xffff_ffff_8123_4567);
    assert_eq!(context.cs, Segment::from_selector(0x08, &x86_gdt()));
    assert_eq!(context.ss, Segment::from_selector(0x10, &x86_gdt()));
    assert_eq!(context.ss.selector, 0x10);
    assert_eq!(context.ds, Segment::from_selector(0x10, &x86_gdt()));
    assert_eq!(context.es, Segment::from_selector(0x10, &x86_gdt()));
    assert_eq!(
        context.fs,
        Segment { selector: 0, base: 0x7f00_1234_0000, limit: 0, access_rights: ACCESS_UNUSABLE }
    );
    assert_eq!(
        context.gs,
        Segment {
            selector: 0,
            base: 0xffff_8880_0000_0000,
            limit: 0,
            access_rights: ACCESS_UNUSABLE
        }
    );
    assert_eq!(context.tss.selector, 0x20);
    assert_eq!(context.tss.base, 0xffff_8800_1234_5000);
    assert_eq!(context.tss_descriptor_low, TSS_LOW);
    assert_eq!(context.tss_descriptor_high, TSS_HIGH);
    assert_eq!(context.gdt, hw.gdt);
    assert_eq!(context.idt, hw.idt);
    assert_eq!(context.cr0, 0x8005_0033);
    assert_eq!(context.cr3, 0x0000_0001_2345_6000);
    assert_eq!(context.cr3_flags, 0);
    assert_eq!(context.cr4, 0x0037_06e0);
    assert_eq!(context.efer, hw.efer);
    assert_eq!(context.lstar, hw.lstar);
    assert_eq!(context.star, hw.star);
    assert_eq!(context.cstar, hw.cstar);
    assert_eq!(context.fmask, hw.fmask);
    assert_eq!(context.kernel_gsbase, hw.kernel_gsbase);
    assert_eq!(context.pat, hw.pat);
    assert_eq!(context.mtrr_def_type, hw.mtrr_def_type);
}

#[test]
fn load_from_keeps_only_defined_control_flags() {
    let mut hw = x86_state();
    hw.cr0 = u64::MAX;
    hw.cr4 = u64::MAX;
    let (context, _) = x86_capture(&hw);
    assert_eq!(context.cr0, 0xe005_003f);
    assert_eq!(context.cr4, 0x01ff_7fff);
}

#[test]
fn load_from_splits_cr3_into_frame_and_low_bits() {
    let mut hw = x86_state();
    hw.cr3 = 0x1234_5fff;
    let (context, _) = x86_capture(&hw);
    assert_eq!(context.cr3, 0x1234_5000);
    assert_eq!(context.cr3_flags, 0xfff);
    hw.cr3 = CR3_MAX;
    let (context, _) = x86_capture(&hw);
    assert_eq!(context.cr3, 0x000f_ffff_ffff_f000);
    assert_eq!(context.cr3_flags, 0xfff);
    hw.cr3 = 0x1018;
    let (context, _) = x86_capture(&hw);
    assert_eq!((context.cr3, context.cr3_flags), (0x1000, 0x18));
}

#[test]
fn load_from_rejects_reserved_bits_in_cr3() {
    let expected = HvError { num: HvErrorNum::EINVAL, msg: None };
    let regs = [0u64; 7];
    let mut hw = x86_state();
    for cr3 in [1u64 << 52, 1 << 63, u64::MAX, CR3_MAX + 1] {
        hw.cr3 = cr3;
        let r = LinuxContext::load_from(&regs, 0x1000, &hw, &x86_gdt(), &x86_tables());
        assert_eq!(r.err(), Some(expected));
    }
}

#[test]
fn load_from_rejects_a_slot_outside_the_hypervisor_table() {
    let expected = HvError { num: HvErrorNum::EINVAL, msg: None };
    let regs = [0u64; 7];
    let hw = x86_state();
    let mut hv = x86_tables();
    hv.gdt.limit = 0x27;
    let r = LinuxContext::load_from(&regs, 0x1000, &hw, &x86_gdt(), &hv);
    assert_eq!(r.err(), Some(expected));
    hv.gdt.limit = 0x2f;
    assert!(LinuxContext::load_from(&regs, 0x1000, &hw, &x86_gdt(), &hv).is_ok());
    hv.tss_selector = 0x28;
    let r = LinuxContext::load_from(&regs, 0x1000, &hw, &x86_gdt(), &hv);
    assert_eq!(r.err(), Some(expected));
    hv.tss_selector = 0x20;
    assert!(LinuxContext::load_from(&regs, 0x1000, &hw, &x86_gdt(), &hv).is_ok());
}

#[test]
fn load_from_installs_the_hypervisor_state() {
    let (_, ops) = x86_capture(&x86_state());
    let hv = x86_tables();
    assert_eq!(
        ops,
        vec![
            HwOp::LoadGdt(hv.gdt),
            HwOp::LoadCs(0x08),
            HwOp::LoadDs(0),
            HwOp::LoadEs(0),
            HwOp::LoadSs(0),
            HwOp::LoadIdt(hv.idt),
            HwOp::LoadTr(0x10),
            HwOp::WriteMsr(Msr::Ia32Pat, 0x07_0106),
        ]
    );
    assert_eq!(ops, hv.entry_ops());
}

#[test]
fn load_from_rejects_a_task_descriptor_outside_the_table() {
    let expected = HvError { num: HvErrorNum::EINVAL, msg: None };
    let regs = [0u64; 7];
    let mut hw = x86_state();
    hw.tr = 0x28;
    let r = LinuxContext::load_from(&regs, 0x1000, &hw, &x86_gdt(), &x86_tables());
    assert_eq!(r.err(), Some(expected));
    hw.tr = 0x30;
    let r = LinuxContext::load_from(&regs, 0x1000, &hw, &x86_gdt(), &x86_tables());
    assert_eq!(r.err(), Some(expected));
    hw.tr = 0x20;
    assert!(LinuxContext::load_from(&regs, 0x1000, &hw, &x86_gdt(), &x86_tables()).is_ok());
}

#[test]
fn load_from_rejects_a_stack_that_wraps() {
    let regs = [0u64; 7];
    let hw = x86_state();
    let r = LinuxContext::load_from(&regs, u64::MAX - 55, &hw, &x86_gdt(), &x86_tables());
    assert_eq!(r.err(), Some(HvError { num: HvErrorNum::EINVAL, msg: None }));
    let r = LinuxContext::load_from(&regs, u64::MAX - 56, &hw, &x86_gdt(), &x86_tables());
    assert_eq!(r.map(|(c, _)| c.rsp), Ok(u64::MAX));
}

#[test]
fn restore_sequence_is_exact() {
    let hw = x86_state();
    let (context, _) = x86_capture(&hw);
    assert_eq!(
        context.restore(),
        vec![
            HwOp::WriteMsr(Msr::Ia32Pat, hw.pat),
            HwOp::WriteMsr(Msr::Ia32Efer, hw.efer),
            HwOp::WriteMsr(Msr::Ia32KernelGsBase, hw.kernel_gsbase),
            HwOp::WriteMsr(Msr::Ia32Star, hw.star),
            HwOp::WriteMsr(Msr::Ia32Lstar, hw.lstar),
            HwOp::WriteMsr(Msr::Ia32Cstar, hw.cstar),
            HwOp::WriteMsr(Msr::Ia32Fmask, hw.fmask),
            HwOp::WriteMsr(Msr::Ia32MtrrDefType, hw.mtrr_def_type),
            HwOp::WriteCr0(0x8005_0033),
            HwOp::WriteCr4(0x0037_06e0),
            HwOp::WriteCr3 { frame: 0x0000_0001_2345_6000, flags: 0 },
            HwOp::InstallTss { selector: 0x20, low: 0x1200_8934_5000_0067, high: TSS_HIGH },
            HwOp::LoadGdt(hw.gdt),
            HwOp::LoadIdt(hw.idt),
            HwOp::LoadCs(0x08),
            HwOp::LoadSs(0x10),
            HwOp::LoadDs(0x10),
            HwOp::LoadEs(0x10),
            HwOp::LoadFs(0),
            HwOp::LoadGs(0),
            HwOp::WriteMsr(Msr::Ia32FsBase, hw.fs_base),
            HwOp::WriteMsr(Msr::Ia32GsBase, hw.gs_base),
        ]
    );
}

#[test]
fn restore_writes_cr3_last_and_cs_first() {
    let (context, _) = x86_capture(&x86_state());
    let ops = context.restore();
    let pos = |pred: &dyn Fn(&HwOp) -> bool| ops.iter().position(|op| pred(op)).unwrap();
    let cr0 = pos(&|op| matches!(op, HwOp::WriteCr0(_)));
    let cr4 = pos(&|op| matches!(op, HwOp::WriteCr4(_)));
    let cr3 = pos(&|op| matches!(op, HwOp::WriteCr3 { .. }));
    assert!(cr0 < cr3 && cr4 < cr3);
    let cs = pos(&|op| matches!(op, HwOp::LoadCs(_)));
    for data in [
        pos(&|op| matches!(op, HwOp::LoadSs(_))),
        pos(&|op| matches!(op, HwOp::LoadDs(_))),
        pos(&|op| matches!(op, HwOp::LoadEs(_))),
        pos(&|op| matches!(op, HwOp::LoadFs(_))),
        pos(&|op| matches!(op, HwOp::LoadGs(_))),
    ] {
        assert!(cs < data);
    }
}

#[test]
fn restore_writes_the_frame_of_cr3_and_the_bits_below_it() {
    let (mut context, _) = x86_capture(&x86_state());
    context.cr3 = 0x1234;
    context.cr3_flags = 0x018;
    assert!(context.restore().contains(&HwOp::WriteCr3 { frame: 0x1000, flags: 0x018 }));
    context.cr3 = 0x000f_ffff_ffff_ffff;
    context.cr3_flags = 0xabc;
    assert!(context
        .restore()
        .contains(&HwOp::WriteCr3 { frame: 0x000f_ffff_ffff_f000, flags: 0xabc }));
}

#[test]
fn capture_then_restore_gives_back_the_registers() {
    let hw = x86_state();
    let (context, entry) = x86_capture(&hw);
    let mut cpu = hw;
    cpu.apply_all(&entry);
    assert_eq!(cpu.gdt, x86_tables().gdt);
    assert_eq!(cpu.idt, x86_tables().idt);
    assert_eq!(cpu.cs, 0x08);
    assert_eq!(cpu.ds, 0);
    assert_eq!(cpu.ss, 0);
    assert_eq!(cpu.tr, 0x10);
    assert_eq!(cpu.pat, 0x07_0106);
    cpu.apply_all(&context.restore());
    assert_eq!(cpu, hw);
}

#[test]
fn capture_then_restore_keeps_the_context_identifier_and_the_stack_segment() {
    let mut hw = x86_state();
    hw.cr3 = 0x0000_0001_2345_6abc;
    hw.cr0 = 0xffff_ffff_ffff_ffff;
    hw.cr4 = 0xffff_ffff_ffff_ffff;
    hw.ss = 0x2b;
    hw.ds = 0x18;
    hw.gs = 0xfff8;
    let (context, entry) = x86_capture(&hw);
    let mut cpu = hw;
    cpu.apply_all(&entry);
    assert_ne!(cpu, hw);
    cpu.apply_all(&context.restore());
    assert_eq!(cpu.cr3, 0x0000_0001_2345_6abc);
    assert_eq!(cpu.ss, 0x2b);
    assert_eq!(cpu, hw);
}

#[test]
fn control_register_writes_keep_reserved_bits() {
    let mut cpu = x86_state();
    cpu.cr0 = 0xffff_ffff_0000_0000;
    cpu.apply(HwOp::WriteCr0(0xffff_ffff_ffff_ffff));
    assert_eq!(cpu.cr0, 0xffff_ffff_0000_0000 | 0xe005_003f);
    cpu.apply(HwOp::WriteCr0(0));
    assert_eq!(cpu.cr0, 0xffff_ffff_0000_0000);
    cpu.cr4 = 0x8000;
    cpu.apply(HwOp::WriteCr4(0x20));
    assert_eq!(cpu.cr4, 0x8020);
}

#[test]
fn apply_writes_the_named_register() {
    let mut cpu = x86_state();
    cpu.apply(HwOp::WriteMsr(Msr::Ia32Lstar, 1));
    cpu.apply(HwOp::WriteMsr(Msr::Ia32MtrrDefType, 2));
    cpu.apply(HwOp::WriteMsr(Msr::Ia32KernelGsBase, 3));
    cpu.apply(HwOp::LoadSs(0x18));
    cpu.apply(HwOp::LoadFs(0x33));
    cpu.apply(HwOp::InstallTss { selector: 0x40, low: 5, high: 6 });
    cpu.apply(HwOp::WriteCr3 { frame: 0x7000, flags: 0x00a });
    let mut expected = x86_state();
    expected.cr3 = 0x700a;
    expected.lstar = 1;
    expected.mtrr_def_type = 2;
    expected.kernel_gsbase = 3;
    expected.ss = 0x18;
    expected.fs = 0x33;
    expected.tr = 0x40;
    assert_eq!(cpu, expected);
}

#[test]
fn guest_register_block_layout() {
    let words: [u64; 16] = [10, 11, 12, 13, 99, 15, 16, 17, 18, 19, 20, 21, 22, 23, 24, 25];
    let regs = GuestRegisters::from_words(&words);
    assert_eq!(regs.rax, 10);
    assert_eq!(regs.rcx, 11);
    assert_eq!(regs.rdx, 12);
    assert_eq!(regs.rbx, 13);
    assert_eq!(regs.unused_rsp, 99);
    assert_eq!(regs.rbp, 15);
    assert_eq!(regs.rsi, 16);
    assert_eq!(regs.rdi, 17);
    assert_eq!(regs.r8, 18);
    assert_eq!(regs.r9, 19);
    assert_eq!(regs.r10, 20);
    assert_eq!(regs.r11, 21);
    assert_eq!(regs.r12, 22);
    assert_eq!(regs.r13, 23);
    assert_eq!(regs.r14, 24);
    assert_eq!(regs.r15, 25);
    assert_eq!(regs.to_words(), words);
    assert_eq!(GuestRegisters::default().to_words(), [0u64; 16]);
}

#[test]
fn return_to_linux_resumes_at_the_captured_pointers() {
    let (context, _) = x86_capture(&x86_state());
    let mut guest = GuestRegisters::default();
    guest.rax = 0x1111;
    guest.r15 = 0xffff;
    let plan = guest.return_to_linux(&context);
    assert_eq!(plan.rsp, 0xffff_c900_0000_1038);
    assert_eq!(plan.rip, 0xffff_ffff_8123_4567);
    assert_eq!(plan.registers[0], 0x1111);
    assert_eq!(plan.registers[15], 0xffff);
    assert_eq!(plan.registers, guest.to_words());
}

#[test]
fn context_switch_holds_the_snapshot_between_capture_and_restore() {
    let hw = x86_state();
    let regs = [15u64, 14, 13, 12, 0xb, 0xbb, 0xffff_ffff_8123_4567];
    let mut state = ContextSwitch::new();
    assert!(!state.is_captured());
    assert_eq!(state.snapshot(), None);
    let entry = state
        .capture(&regs, 0xffff_c900_0000_1000, &hw, &x86_gdt(), &x86_tables())
        .unwrap();
    assert_eq!(entry, x86_tables().entry_ops());
    assert!(state.is_captured());
    let (expected, _) = x86_capture(&hw);
    assert_eq!(state.snapshot(), Some(expected));
    let (context, ops) = state.restore();
    assert_eq!(context, expected);
    assert_eq!(ops, expected.restore());
    assert!(!state.is_captured());
    assert_eq!(state.snapshot(), None);
}

#[test]
fn context_switch_stays_with_the_kernel_when_capture_fails() {
    let mut hw = x86_state();
    hw.tr = 0x28;
    let mut state = ContextSwitch::new();
    let r = state.capture(&[0u64; 7], 0x1000, &hw, &x86_gdt(), &x86_tables());
    assert_eq!(r.err(), Some(HvError { num: HvErrorNum::EINVAL, msg: None }));
    assert!(!state.is_captured());
}

#[test]
fn descriptor_table_helpers() {
    assert_eq!(descriptor_index(0), 0);
    assert_eq!(descriptor_index(0x23), 4);
    assert_eq!(descriptor_index(0xffff), 0x1fff);
    assert_eq!(tss_available(TSS_LOW), 0x1200_8934_5000_0067);
    assert_eq!(tss_available(0x1200_8934_5000_0067), 0x1200_8934_5000_0067);
    assert_eq!(DescriptorTablePointer { limit: 0x2f, base: 0 }.entry_count(), 6);
    assert_eq!(DescriptorTablePointer { limit: 0xffff, base: 0 }.entry_count(), 0x2000);
    assert_eq!(DescriptorTablePointer { limit: 0, base: 0 }.entry_count(), 0);
}

#[test]
fn install_tss_writes_both_words_with_the_busy_flag_cleared() {
    let mut table = vec![1u64, 2, 3, 4, 5, 6];
    assert_eq!(install_tss(&mut table, 0x20, TSS_LOW, TSS_HIGH), Ok(()));
    assert_eq!(table, vec![1, 2, 3, 4, 0x1200_8934_5000_0067, TSS_HIGH]);
    assert_eq!(install_tss(&mut table, 0x0b, 0x7, 0x8), Ok(()));
    assert_eq!(table, vec![1, 0x7, 0x8, 4, 0x1200_8934_5000_0067, TSS_HIGH]);
}

#[test]
fn install_tss_rejects_a_slot_outside_the_table() {
    let expected = Err(HvError { num: HvErrorNum::EINVAL, msg: None });
    let mut table = vec![1u64, 2, 3, 4, 5, 6];
    assert_eq!(install_tss(&mut table, 0x28, 9, 9), expected);
    assert_eq!(install_tss(&mut table, 0x30, 9, 9), expected);
    assert_eq!(install_tss(&mut table, 0xffff, 9, 9), expected);
    assert_eq!(table, vec![1, 2, 3, 4, 5, 6]);
    let mut empty: Vec<u64> = Vec::new();
    assert_eq!(install_tss(&mut empty, 0, 9, 9), expected);
}

#[test]
fn release_tss_clears_the_busy_flag_in_place() {
    let mut table = vec![0u64, 0, TSS_LOW, TSS_HIGH];
    assert_eq!(release_tss(&mut table, 0x10), Ok(()));
    assert_eq!(table, vec![0, 0, 0x1200_8934_5000_0067, TSS_HIGH]);
    assert_eq!(release_tss(&mut table, 0x10), Ok(()));
    assert_eq!(table, vec![0, 0, 0x1200_8934_5000_0067, TSS_HIGH]);
    assert_eq!(
        release_tss(&mut table, 0x18),
        Err(HvError { num: HvErrorNum::EINVAL, msg: None })
    );
    assert_eq!(table, vec![0, 0, 0x1200_8934_5000_0067, TSS_HIGH]);
}
