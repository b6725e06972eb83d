//! The switch between the interrupted kernel and the hypervisor.
//!
//! Capture copies every register that the hypervisor is going to overwrite
//! into a snapshot; restore writes the snapshot back. Neither touches the
//! processor: capture reads a [`CpuState`] that was filled from the
//! hardware, and both hand back the register writes to perform as a list of
//! [`HwOp`], in the order in which they must be performed.
//!
//! Everything that could make restore fail is settled by capture: the
//! kernel's task-state descriptor is read and kept in the snapshot, because
//! the kernel's own descriptor table may be read-only to the hypervisor and
//! the task register has to be reloaded from the hypervisor's table; and
//! capture refuses a snapshot for which the hypervisor's table lacks the
//! slots that entry and restore write.

use vstd::prelude::*;
use crate::arch::x86_64::segmentation::{
    descriptor_index,
    spec_selector_index,
    tss_available,
    DescriptorTablePointer,
    Segment,
    DESC_TSS_BUSY,
};
use crate::error::{HvError, HvErrorNum, HvResult};

verus! {

/// Number of words that the entry code pushes before it calls capture:
/// r15, r14, r13, r12, rbx, rbp and the return address.
pub const SAVED_LINUX_REGS: usize = 7;

/// The flags of CR0 that have a defined meaning.
pub const CR0_FLAGS: u64 = 0xe005_003f;

/// The flags of CR4 that have a defined meaning.
pub const CR4_FLAGS: u64 = 0x01ff_7fff;

/// The bits of CR3 below the address: cache flags or the process-context
/// identifier.
pub const CR3_FLAGS: u64 = 0xfff;

/// The largest value that CR3 holds: bits 52 to 63 read as zero.
pub const CR3_MAX: u64 = 0x000f_ffff_ffff_ffff;

/// The page attribute table of the hypervisor: write-back, write-combining,
/// uncacheable.
pub const HV_PAT: u64 = 0x07_0106;

/// The model-specific registers that the switch saves and restores.
#[derive(Clone, Copy, Debug, PartialEq, Eq, Structural)]
pub enum Msr {
    Ia32Efer,
    Ia32Star,
    Ia32Lstar,
    Ia32Cstar,
    Ia32Fmask,
    Ia32FsBase,
    Ia32GsBase,
    Ia32KernelGsBase,
    Ia32Pat,
    Ia32MtrrDefType,
}

impl Msr {
    /// The number by which `rdmsr` and `wrmsr` address the register.
    pub fn address(self) -> (r: u32)
        ensures
            r == match self {
                Msr::Ia32Efer => 0xc000_0080u32,
                Msr::Ia32Star => 0xc000_0081u32,
                Msr::Ia32Lstar => 0xc000_0082u32,
                Msr::Ia32Cstar => 0xc000_0083u32,
                Msr::Ia32Fmask => 0xc000_0084u32,
                Msr::Ia32FsBase => 0xc000_0100u32,
                Msr::Ia32GsBase => 0xc000_0101u32,
                Msr::Ia32KernelGsBase => 0xc000_0102u32,
                Msr::Ia32Pat => 0x277u32,
                Msr::Ia32MtrrDefType => 0x2ffu32,
            },
    {
        match self {
            Msr::Ia32Efer => 0xc000_0080,
            Msr::Ia32Star => 0xc000_0081,
            Msr::Ia32Lstar => 0xc000_0082,
            Msr::Ia32Cstar => 0xc000_0083,
            Msr::Ia32Fmask => 0xc000_0084,
            Msr::Ia32FsBase => 0xc000_0100,
            Msr::Ia32GsBase => 0xc000_0101,
            Msr::Ia32KernelGsBase => 0xc000_0102,
            Msr::Ia32Pat => 0x277,
            Msr::Ia32MtrrDefType => 0x2ff,
        }
    }
}

/// One register write of a context switch.
#[derive(Clone, Copy, Debug, PartialEq, Eq, Structural)]
pub enum HwOp {
    /// Write a model-specific register.
    WriteMsr(Msr, u64),
    /// Write the defined flags of CR0; reserved bits keep their value.
    WriteCr0(u64),
    /// Write the defined flags of CR4; reserved bits keep their value.
    WriteCr4(u64),
    /// Write CR3 with the address of a root table and the twelve bits
    /// below it.
    WriteCr3 { frame: u64, flags: u16 },
    /// Write the two words of a task-state descriptor into the slot of the
    /// hypervisor's descriptor table that the selector names, then load the
    /// task register from it.
    InstallTss { selector: u16, low: u64, high: u64 },
    /// Load the task register.
    LoadTr(u16),
    /// Load the global descriptor-table register.
    LoadGdt(DescriptorTablePointer),
    /// Load the interrupt descriptor-table register.
    LoadIdt(DescriptorTablePointer),
    /// Reload the code segment.
    LoadCs(u16),
    LoadDs(u16),
    LoadEs(u16),
    LoadSs(u16),
    LoadFs(u16),
    LoadGs(u16),
}

/// The registers of one processor that a context switch reads and writes.
#[derive(Clone, Copy, Debug, PartialEq, Eq, Structural)]
pub struct CpuState {
    pub cs: u16,
    pub ds: u16,
    pub es: u16,
    pub ss: u16,
    pub fs: u16,
    pub gs: u16,
    pub tr: u16,
    pub gdt: DescriptorTablePointer,
    pub idt: DescriptorTablePointer,
    pub cr0: u64,
    pub cr3: u64,
    pub cr4: u64,
    pub efer: u64,
    pub star: u64,
    pub lstar: u64,
    pub cstar: u64,
    pub fmask: u64,
    pub fs_base: u64,
    pub gs_base: u64,
    pub kernel_gsbase: u64,
    pub pat: u64,
    pub mtrr_def_type: u64,
}

/// The descriptor tables and selectors that the hypervisor runs on.
#[derive(Clone, Copy, Debug, PartialEq, Eq, Structural)]
pub struct HvTables {
    pub gdt: DescriptorTablePointer,
    pub idt: DescriptorTablePointer,
    pub kcode_selector: u16,
    pub tss_selector: u16,
}

/// The state of the interrupted kernel.
#[derive(Clone, Copy, Debug, PartialEq, Eq, Structural)]
pub struct LinuxContext {
    pub rsp: u64,
    pub rip: u64,
    pub r15: u64,
    pub r14: u64,
    pub r13: u64,
    pub r12: u64,
    pub rbx: u64,
    pub rbp: u64,
    pub cs: Segment,
    pub ss: Segment,
    pub ds: Segment,
    pub es: Segment,
    pub fs: Segment,
    pub gs: Segment,
    pub tss: Segment,
    pub gdt: DescriptorTablePointer,
    pub idt: DescriptorTablePointer,
    pub cr0: u64,
    /// The address of the root table in CR3.
    pub cr3: u64,
    /// The twelve bits of CR3 below the address.
    pub cr3_flags: u16,
    pub cr4: u64,
    pub efer: u64,
    pub lstar: u64,
    pub pat: u64,
    pub kernel_gsbase: u64,
    pub star: u64,
    pub cstar: u64,
    pub fmask: u64,
    pub mtrr_def_type: u64,
    /// The first word of the kernel's task-state descriptor.
    pub tss_descriptor_low: u64,
    /// The second word of the kernel's task-state descriptor.
    pub tss_descriptor_high: u64,
}

/// The general-purpose registers of the guest, in the order in which the
/// entry and exit code pushes and pops them. The slot of the stack pointer
/// is kept so that the offsets of the others do not move.
#[derive(Clone, Copy, Debug, PartialEq, Eq, Structural)]
pub struct GuestRegisters {
    pub rax: u64,
    pub rcx: u64,
    pub rdx: u64,
    pub rbx: u64,
    pub unused_rsp: u64,
    pub rbp: u64,
    pub rsi: u64,
    pub rdi: u64,
    pub r8: u64,
    pub r9: u64,
    pub r10: u64,
    pub r11: u64,
    pub r12: u64,
    pub r13: u64,
    pub r14: u64,
    pub r15: u64,
}

/// What the exit trampoline needs to resume the kernel: the register block
/// to pop, and the stack and instruction pointers to continue with.
#[derive(Clone, Copy, Debug, PartialEq, Eq)]
pub struct ResumePlan {
    pub registers: [u64; 16],
    pub rsp: u64,
    pub rip: u64,
}

/// The bits of `raw` that `x86_64::registers::control::Cr0Flags` keeps when
/// it is made from them with `from_bits_truncate`: the defined flags of CR0.
#[verifier::external_body]
fn cr0_flags(raw: u64) -> (flags: u64)
    ensures
        flags == raw & CR0_FLAGS,
{
    x86_64::registers::control::Cr0Flags::from_bits_truncate(raw).bits()
}

/// The bits of `raw` that `x86_64::registers::control::Cr4Flags` keeps when
/// it is made from them with `from_bits_truncate`: the defined flags of CR4.
#[verifier::external_body]
fn cr4_flags(raw: u64) -> (flags: u64)
    ensures
        flags == raw & CR4_FLAGS,
{
    x86_64::registers::control::Cr4Flags::from_bits_truncate(raw).bits()
}

/// The start address of the 4 KiB frame that
/// `x86_64::structures::paging::PhysFrame::containing_address` returns for
/// the physical address `addr`: `addr` with its low twelve bits cleared.
/// `x86_64::PhysAddr::new` panics on an address of 52 bits or more.
#[verifier::external_body]
fn frame_start(addr: u64) -> (start: u64)
    requires
        addr <= 0x000f_ffff_ffff_ffff,
    ensures
        start == addr & !0xfffu64,
{
    let frame: x86_64::structures::paging::PhysFrame =
        x86_64::structures::paging::PhysFrame::containing_address(x86_64::PhysAddr::new(addr));
    frame.start_address().as_u64()
}

proof fn lemma_control_bits(cr0: u64, cr3: u64, cr4: u64, cur0: u64, cur4: u64)
    by (bit_vector)
    ensures
        cr3 & 0xfff <= 0xfff,
        ((cr3 & !0xfffu64) & !0xfffu64) | (cr3 & 0xfff) == cr3,
        (cr0 & !0xe005_003fu64) | ((cr0 & 0xe005_003f) & 0xe005_003f) == cr0,
        (cr4 & !0x01ff_7fffu64) | ((cr4 & 0x01ff_7fff) & 0x01ff_7fff) == cr4,
        ((cur0 & !0xe005_003fu64) | ((cr0 & 0xe005_003f) & 0xe005_003f)) & 0xe005_003f == cr0
            & 0xe005_003f,
        ((cur4 & !0x01ff_7fffu64) | ((cr4 & 0x01ff_7fff) & 0x01ff_7fff)) & 0x01ff_7fff == cr4
            & 0x01ff_7fff,
{
}

impl CpuState {
    /// The state after one register write.
    pub open spec fn spec_apply(self, op: HwOp) -> CpuState {
        match op {
            HwOp::WriteMsr(msr, value) => match msr {
                Msr::Ia32Efer => CpuState { efer: value, ..self },
                Msr::Ia32Star => CpuState { star: value, ..self },
                Msr::Ia32Lstar => CpuState { lstar: value, ..self },
                Msr::Ia32Cstar => CpuState { cstar: value, ..self },
                Msr::Ia32Fmask => CpuState { fmask: value, ..self },
                Msr::Ia32FsBase => CpuState { fs_base: value, ..self },
                Msr::Ia32GsBase => CpuState { gs_base: value, ..self },
                Msr::Ia32KernelGsBase => CpuState { kernel_gsbase: value, ..self },
                Msr::Ia32Pat => CpuState { pat: value, ..self },
                Msr::Ia32MtrrDefType => CpuState { mtrr_def_type: value, ..self },
            },
            HwOp::WriteCr0(flags) => CpuState {
                cr0: (self.cr0 & !CR0_FLAGS) | (flags & CR0_FLAGS),
                ..self
            },
            HwOp::WriteCr4(flags) => CpuState {
                cr4: (self.cr4 & !CR4_FLAGS) | (flags & CR4_FLAGS),
                ..self
            },
            HwOp::WriteCr3 { frame, flags } => CpuState { cr3: frame | (flags as u64), ..self },
            HwOp::InstallTss { selector, low, high } => CpuState { tr: selector, ..self },
            HwOp::LoadTr(selector) => CpuState { tr: selector, ..self },
            HwOp::LoadGdt(pointer) => CpuState { gdt: pointer, ..self },
            HwOp::LoadIdt(pointer) => CpuState { idt: pointer, ..self },
            HwOp::LoadCs(selector) => CpuState { cs: selector, ..self },
            HwOp::LoadDs(selector) => CpuState { ds: selector, ..self },
            HwOp::LoadEs(selector) => CpuState { es: selector, ..self },
            HwOp::LoadSs(selector) => CpuState { ss: selector, ..self },
            HwOp::LoadFs(selector) => CpuState { fs: selector, ..self },
            HwOp::LoadGs(selector) => CpuState { gs: selector, ..self },
        }
    }

    /// The state after the first `n` register writes of `ops`.
    pub open spec fn spec_apply_upto(self, ops: Seq<HwOp>, n: nat) -> CpuState
        decreases n,
    {
        if n == 0 {
            self
        } else {
            self.spec_apply_upto(ops, (n - 1) as nat).spec_apply(ops[n - 1])
        }
    }

    /// The state after every register write of `ops`, in order.
    pub open spec fn spec_apply_all(self, ops: Seq<HwOp>) -> CpuState {
        self.spec_apply_upto(ops, ops.len())
    }

    /// Performs one register write on the state.
    pub fn apply(&mut self, op: HwOp)
        ensures
            *final(self) == old(self).spec_apply(op),
    {
        match op {
            HwOp::WriteMsr(msr, value) => match msr {
                Msr::Ia32Efer => self.efer = value,
                Msr::Ia32Star => self.star = value,
                Msr::Ia32Lstar => self.lstar = value,
                Msr::Ia32Cstar => self.cstar = value,
                Msr::Ia32Fmask => self.fmask = value,
                Msr::Ia32FsBase => self.fs_base = value,
                Msr::Ia32GsBase => self.gs_base = value,
                Msr::Ia32KernelGsBase => self.kernel_gsbase = value,
                Msr::Ia32Pat => self.pat = value,
                Msr::Ia32MtrrDefType => self.mtrr_def_type = value,
            },
            HwOp::WriteCr0(flags) => self.cr0 = (self.cr0 & !CR0_FLAGS) | (flags & CR0_FLAGS),
            HwOp::WriteCr4(flags) => self.cr4 = (self.cr4 & !CR4_FLAGS) | (flags & CR4_FLAGS),
            HwOp::WriteCr3 { frame, flags } => self.cr3 = frame | (flags as u64),
            HwOp::InstallTss { selector, low, high } => self.tr = selector,
            HwOp::LoadTr(selector) => self.tr = selector,
            HwOp::LoadGdt(pointer) => self.gdt = pointer,
            HwOp::LoadIdt(pointer) => self.idt = pointer,
            HwOp::LoadCs(selector) => self.cs = selector,
            HwOp::LoadDs(selector) => self.ds = selector,
            HwOp::LoadEs(selector) => self.es = selector,
            HwOp::LoadSs(selector) => self.ss = selector,
            HwOp::LoadFs(selector) => self.fs = selector,
            HwOp::LoadGs(selector) => self.gs = selector,
        }
    }

    /// Performs the register writes of `ops` on the state, in order.
    pub fn apply_all(&mut self, ops: &[HwOp])
        ensures
            *final(self) == old(self).spec_apply_all(ops@),
    {
        let mut n: usize = 0;
        while n < ops.len()
            invariant
                n <= ops.len(),
                *self == old(self).spec_apply_upto(ops@, n as nat),
            decreases ops.len() - n,
        {
            self.apply(ops[n]);
            n = n + 1;
        }
    }
}

impl HvTables {
    /// The register writes that put the processor on the hypervisor's
    /// descriptor tables, segments and page attribute table.
    pub open spec fn spec_entry_ops(self) -> Seq<HwOp> {
        seq![
            HwOp::LoadGdt(self.gdt),
            HwOp::LoadCs(self.kcode_selector),
            HwOp::LoadDs(0),
            HwOp::LoadEs(0),
            HwOp::LoadSs(0),
            HwOp::LoadIdt(self.idt),
            HwOp::LoadTr(self.tss_selector),
            HwOp::WriteMsr(Msr::Ia32Pat, HV_PAT),
        ]
    }

    /// The register writes that put the processor on the hypervisor's
    /// descriptor tables, segments and page attribute table.
    pub fn entry_ops(&self) -> (ops: Vec<HwOp>)
        ensures
            ops@ == self.spec_entry_ops(),
    {
        let mut ops: Vec<HwOp> = Vec::new();
        ops.push(HwOp::LoadGdt(self.gdt));
        ops.push(HwOp::LoadCs(self.kcode_selector));
        ops.push(HwOp::LoadDs(0));
        ops.push(HwOp::LoadEs(0));
        ops.push(HwOp::LoadSs(0));
        ops.push(HwOp::LoadIdt(self.idt));
        ops.push(HwOp::LoadTr(self.tss_selector));
        ops.push(HwOp::WriteMsr(Msr::Ia32Pat, HV_PAT));
        assert(ops@ =~= self.spec_entry_ops());
        ops
    }
}

impl LinuxContext {
    /// Whether a snapshot can be taken, and restored later without fail:
    /// the saved words do not wrap around the address space; CR3 holds
    /// nothing in its reserved bits; both words of the kernel's task-state
    /// descriptor lie within the kernel's descriptor table; and the
    /// hypervisor's descriptor table has both words of the slot to which
    /// restore copies that descriptor, and of the slot of the hypervisor's
    /// own task-state descriptor.
    pub open spec fn spec_can_capture(
        linux_sp: u64,
        hw: CpuState,
        gdt_table: Seq<u64>,
        hv: HvTables,
    ) -> bool {
        &&& linux_sp + 8 * SAVED_LINUX_REGS <= u64::MAX
        &&& hw.cr3 <= CR3_MAX
        &&& spec_selector_index(hw.tr) + 1 < gdt_table.len()
        &&& spec_selector_index(hw.tr) + 1 < hv.gdt.spec_entry_count()
        &&& spec_selector_index(hv.tss_selector) + 1 < hv.gdt.spec_entry_count()
    }

    /// The snapshot of the kernel that pushed `regs` at `linux_sp` and whose
    /// registers are `hw`. Every register is kept as it is. Of CR0 and CR4
    /// the defined flags are kept, because a write of either leaves the
    /// reserved bits alone; CR3 is kept as the address of the root table
    /// and the twelve bits below it; the bases of FS and GS come from their
    /// model-specific registers instead of the descriptors.
    pub open spec fn spec_capture(
        regs: Seq<u64>,
        linux_sp: u64,
        hw: CpuState,
        gdt_table: Seq<u64>,
    ) -> LinuxContext {
        LinuxContext {
            rsp: (linux_sp + 8 * SAVED_LINUX_REGS) as u64,
            r15: regs[0],
            r14: regs[1],
            r13: regs[2],
            r12: regs[3],
            rbx: regs[4],
            rbp: regs[5],
            rip: regs[6],
            cs: Segment::spec_from_selector(hw.cs, gdt_table),
            ss: Segment::spec_from_selector(hw.ss, gdt_table),
            ds: Segment::spec_from_selector(hw.ds, gdt_table),
            es: Segment::spec_from_selector(hw.es, gdt_table),
            fs: Segment { base: hw.fs_base, ..Segment::spec_from_selector(hw.fs, gdt_table) },
            gs: Segment { base: hw.gs_base, ..Segment::spec_from_selector(hw.gs, gdt_table) },
            tss: Segment::spec_from_selector(hw.tr, gdt_table),
            gdt: hw.gdt,
            idt: hw.idt,
            cr0: hw.cr0 & CR0_FLAGS,
            cr3: hw.cr3 & !CR3_FLAGS,
            cr3_flags: (hw.cr3 & CR3_FLAGS) as u16,
            cr4: hw.cr4 & CR4_FLAGS,
            efer: hw.efer,
            lstar: hw.lstar,
            pat: hw.pat,
            kernel_gsbase: hw.kernel_gsbase,
            star: hw.star,
            cstar: hw.cstar,
            fmask: hw.fmask,
            mtrr_def_type: hw.mtrr_def_type,
            tss_descriptor_low: gdt_table[spec_selector_index(hw.tr) as int],
            tss_descriptor_high: gdt_table[spec_selector_index(hw.tr) + 1],
        }
    }

    /// A snapshot can be restored if its CR3 is a physical address.
    pub open spec fn wf(self) -> bool {
        self.cr3 <= 0x000f_ffff_ffff_ffff
    }

    /// The register writes that resume the kernel, in the order in which
    /// they are performed: the model-specific registers of the system-call
    /// and memory-type machinery; CR0, CR4 and, last of the control
    /// registers, CR3; the task register, from a copy of the kernel's
    /// descriptor whose busy flag is cleared; the kernel's descriptor
    /// tables; the code segment and after it the stack and data segments;
    /// the bases of FS and GS.
    pub open spec fn spec_restore_ops(self) -> Seq<HwOp> {
        seq![
            HwOp::WriteMsr(Msr::Ia32Pat, self.pat),
            HwOp::WriteMsr(Msr::Ia32Efer, self.efer),
            HwOp::WriteMsr(Msr::Ia32KernelGsBase, self.kernel_gsbase),
            HwOp::WriteMsr(Msr::Ia32Star, self.star),
            HwOp::WriteMsr(Msr::Ia32Lstar, self.lstar),
            HwOp::WriteMsr(Msr::Ia32Cstar, self.cstar),
            HwOp::WriteMsr(Msr::Ia32Fmask, self.fmask),
            HwOp::WriteMsr(Msr::Ia32MtrrDefType, self.mtrr_def_type),
            HwOp::WriteCr0(self.cr0),
            HwOp::WriteCr4(self.cr4),
            HwOp::WriteCr3 { frame: self.cr3 & !CR3_FLAGS, flags: self.cr3_flags },
            HwOp::InstallTss {
                selector: self.tss.selector,
                low: self.tss_descriptor_low & !DESC_TSS_BUSY,
                high: self.tss_descriptor_high,
            },
            HwOp::LoadGdt(self.gdt),
            HwOp::LoadIdt(self.idt),
            HwOp::LoadCs(self.cs.selector),
            HwOp::LoadSs(self.ss.selector),
            HwOp::LoadDs(self.ds.selector),
            HwOp::LoadEs(self.es.selector),
            HwOp::LoadFs(self.fs.selector),
            HwOp::LoadGs(self.gs.selector),
            HwOp::WriteMsr(Msr::Ia32FsBase, self.fs.base),
            HwOp::WriteMsr(Msr::Ia32GsBase, self.gs.base),
        ]
    }

    /// Takes the snapshot of the interrupted kernel and returns it with the
    /// register writes that install the hypervisor's state.
    ///
    /// `regs` are the words that the entry code pushed at `linux_sp`, `hw`
    /// the registers of the processor, `gdt_table` the kernel's descriptor
    /// table, `hv` the tables of the hypervisor. Nothing is captured when
    /// the saved words would wrap around the address space, when CR3 holds
    /// a reserved bit, or when a task-state descriptor that entry or
    /// restore touches does not lie within its table.
    pub fn load_from(
        regs: &[u64; 7],
        linux_sp: u64,
        hw: &CpuState,
        gdt_table: &[u64],
        hv: &HvTables,
    ) -> (r: HvResult<(LinuxContext, Vec<HwOp>)>)
        ensures
            match r {
                Ok((context, ops)) => {
                    &&& Self::spec_can_capture(linux_sp, *hw, gdt_table@, *hv)
                    &&& context == Self::spec_capture(regs@, linux_sp, *hw, gdt_table@)
                    &&& context.wf()
                    &&& ops@ == hv.spec_entry_ops()
                },
                Err(e) => {
                    &&& !Self::spec_can_capture(linux_sp, *hw, gdt_table@, *hv)
                    &&& e == (HvError { num: HvErrorNum::EINVAL, msg: None })
                },
            },
    {
        if linux_sp > u64::MAX - 8 * (SAVED_LINUX_REGS as u64) {
            return Err(HvError::new(HvErrorNum::EINVAL));
        }
        if hw.cr3 > CR3_MAX {
            return Err(HvError::new(HvErrorNum::EINVAL));
        }
        let tss_index = descriptor_index(hw.tr);
        if tss_index + 1 >= gdt_table.len() {
            return Err(HvError::new(HvErrorNum::EINVAL));
        }
        let hv_count = hv.gdt.entry_count();
        if tss_index + 1 >= hv_count || descriptor_index(hv.tss_selector) + 1 >= hv_count {
            return Err(HvError::new(HvErrorNum::EINVAL));
        }
        let cr3: u64 = hw.cr3;
        assert(cr3 & 0xfff <= 0xfff && (cr3 <= 0x000f_ffff_ffff_ffff ==> cr3 & !0xfffu64
            <= 0x000f_ffff_ffff_ffff)) by (bit_vector);
        let mut fs = Segment::from_selector(hw.fs, gdt_table);
        let mut gs = Segment::from_selector(hw.gs, gdt_table);
        fs.base = hw.fs_base;
        gs.base = hw.gs_base;
        let context = LinuxContext {
            rsp: linux_sp + 8 * (SAVED_LINUX_REGS as u64),
            r15: regs[0],
            r14: regs[1],
            r13: regs[2],
            r12: regs[3],
            rbx: regs[4],
            rbp: regs[5],
            rip: regs[6],
            cs: Segment::from_selector(hw.cs, gdt_table),
            ss: Segment::from_selector(hw.ss, gdt_table),
            ds: Segment::from_selector(hw.ds, gdt_table),
            es: Segment::from_selector(hw.es, gdt_table),
            fs,
            gs,
            tss: Segment::from_selector(hw.tr, gdt_table),
            gdt: hw.gdt,
            idt: hw.idt,
            cr0: cr0_flags(hw.cr0),
            cr3: frame_start(hw.cr3),
            cr3_flags: (hw.cr3 & CR3_FLAGS) as u16,
            cr4: cr4_flags(hw.cr4),
            efer: hw.efer,
            lstar: hw.lstar,
            pat: hw.pat,
            kernel_gsbase: hw.kernel_gsbase,
            star: hw.star,
            cstar: hw.cstar,
            fmask: hw.fmask,
            mtrr_def_type: hw.mtrr_def_type,
            tss_descriptor_low: gdt_table[tss_index],
            tss_descriptor_high: gdt_table[tss_index + 1],
        };
        Ok((context, hv.entry_ops()))
    }

    /// The register writes that resume the kernel. The caller performs them
    /// in order and then leaves through the exit trampoline; nothing may
    /// follow them on the hypervisor's path.
    pub fn restore(&self) -> (ops: Vec<HwOp>)
        requires
            self.wf(),
        ensures
            ops@ == self.spec_restore_ops(),
    {
        let mut ops: Vec<HwOp> = Vec::new();
        ops.push(HwOp::WriteMsr(Msr::Ia32Pat, self.pat));
        ops.push(HwOp::WriteMsr(Msr::Ia32Efer, self.efer));
        ops.push(HwOp::WriteMsr(Msr::Ia32KernelGsBase, self.kernel_gsbase));
        ops.push(HwOp::WriteMsr(Msr::Ia32Star, self.star));
        ops.push(HwOp::WriteMsr(Msr::Ia32Lstar, self.lstar));
        ops.push(HwOp::WriteMsr(Msr::Ia32Cstar, self.cstar));
        ops.push(HwOp::WriteMsr(Msr::Ia32Fmask, self.fmask));
        ops.push(HwOp::WriteMsr(Msr::Ia32MtrrDefType, self.mtrr_def_type));
        ops.push(HwOp::WriteCr0(self.cr0));
        ops.push(HwOp::WriteCr4(self.cr4));
        // CR3 must be last in case CR4 enables PCID.
        ops.push(HwOp::WriteCr3 { frame: frame_start(self.cr3), flags: self.cr3_flags });
        // The kernel's table is read-only to the hypervisor: the task
        // register is reloaded from a copy of the kernel's descriptor.
        ops.push(
            HwOp::InstallTss {
                selector: self.tss.selector,
                low: tss_available(self.tss_descriptor_low),
                high: self.tss_descriptor_high,
            },
        );
        ops.push(HwOp::LoadGdt(self.gdt));
        ops.push(HwOp::LoadIdt(self.idt));
        ops.push(HwOp::LoadCs(self.cs.selector));
        ops.push(HwOp::LoadSs(self.ss.selector));
        ops.push(HwOp::LoadDs(self.ds.selector));
        ops.push(HwOp::LoadEs(self.es.selector));
        ops.push(HwOp::LoadFs(self.fs.selector));
        ops.push(HwOp::LoadGs(self.gs.selector));
        ops.push(HwOp::WriteMsr(Msr::Ia32FsBase, self.fs.base));
        ops.push(HwOp::WriteMsr(Msr::Ia32GsBase, self.gs.base));
        assert(ops@ =~= self.spec_restore_ops());
        ops
    }
}

/// The context switch of one processor: either the interrupted kernel runs
/// and no snapshot is held, or the hypervisor runs and holds the kernel's
/// snapshot. A snapshot is taken once and resumed once.
#[derive(Debug)]
pub struct ContextSwitch {
    snapshot: Option<LinuxContext>,
}

impl ContextSwitch {
    /// The snapshot that is held while the hypervisor runs.
    pub closed spec fn spec_snapshot(&self) -> Option<LinuxContext> {
        self.snapshot
    }

    /// A snapshot that is held can be restored.
    pub open spec fn wf(&self) -> bool {
        self.spec_snapshot() is Some ==> self.spec_snapshot().unwrap().wf()
    }

    /// The state of a processor on which the kernel runs.
    pub fn new() -> (state: ContextSwitch)
        ensures
            state.spec_snapshot() is None,
            state.wf(),
    {
        ContextSwitch { snapshot: None }
    }

    /// Whether the hypervisor runs and holds a snapshot.
    pub fn is_captured(&self) -> (r: bool)
        ensures
            r == self.spec_snapshot() is Some,
    {
        self.snapshot.is_some()
    }

    /// The snapshot that is held, if any.
    pub fn snapshot(&self) -> (r: Option<LinuxContext>)
        ensures
            r == self.spec_snapshot(),
    {
        self.snapshot
    }

    /// Enters the hypervisor: takes the snapshot of the kernel, keeps it,
    /// and returns the register writes that install the hypervisor's state.
    /// When no snapshot can be taken the kernel stays resident.
    pub fn capture(
        &mut self,
        regs: &[u64; 7],
        linux_sp: u64,
        hw: &CpuState,
        gdt_table: &[u64],
        hv: &HvTables,
    ) -> (r: HvResult<Vec<HwOp>>)
        requires
            old(self).spec_snapshot() is None,
        ensures
            final(self).wf(),
            match r {
                Ok(ops) => {
                    &&& LinuxContext::spec_can_capture(linux_sp, *hw, gdt_table@, *hv)
                    &&& final(self).spec_snapshot() == Some(
                        LinuxContext::spec_capture(regs@, linux_sp, *hw, gdt_table@),
                    )
                    &&& ops@ == hv.spec_entry_ops()
                },
                Err(e) => {
                    &&& !LinuxContext::spec_can_capture(linux_sp, *hw, gdt_table@, *hv)
                    &&& final(self).spec_snapshot() is None
                    &&& e == (HvError { num: HvErrorNum::EINVAL, msg: None })
                },
            },
    {
        match LinuxContext::load_from(regs, linux_sp, hw, gdt_table, hv) {
            Ok((context, ops)) => {
                self.snapshot = Some(context);
                Ok(ops)
            },
            Err(e) => Err(e),
        }
    }

    /// Leaves the hypervisor: gives up the snapshot and returns it with the
    /// register writes that resume the kernel.
    pub fn restore(&mut self) -> (r: (LinuxContext, Vec<HwOp>))
        requires
            old(self).wf(),
            old(self).spec_snapshot() is Some,
        ensures
            final(self).spec_snapshot() is None,
            final(self).wf(),
            r.0 == old(self).spec_snapshot().unwrap(),
            r.1@ == r.0.spec_restore_ops(),
    {
        let context = self.snapshot.unwrap();
        self.snapshot = None;
        let ops = context.restore();
        (context, ops)
    }
}

impl GuestRegisters {
    /// The register block as the exit trampoline pops it, lowest address
    /// first.
    pub open spec fn spec_words(self) -> Seq<u64> {
        seq![
            self.rax,
            self.rcx,
            self.rdx,
            self.rbx,
            self.unused_rsp,
            self.rbp,
            self.rsi,
            self.rdi,
            self.r8,
            self.r9,
            self.r10,
            self.r11,
            self.r12,
            self.r13,
            self.r14,
            self.r15,
        ]
    }

    /// The register block as the exit trampoline pops it.
    pub fn to_words(&self) -> (words: [u64; 16])
        ensures
            words@ == self.spec_words(),
    {
        let words: [u64; 16] = [
            self.rax,
            self.rcx,
            self.rdx,
            self.rbx,
            self.unused_rsp,
            self.rbp,
            self.rsi,
            self.rdi,
            self.r8,
            self.r9,
            self.r10,
            self.r11,
            self.r12,
            self.r13,
            self.r14,
            self.r15,
        ];
        assert(words@ =~= self.spec_words());
        words
    }

    /// The registers that the entry trampoline pushed, lowest address first.
    pub fn from_words(words: &[u64; 16]) -> (registers: GuestRegisters)
        ensures
            registers.spec_words() == words@,
    {
        let registers = GuestRegisters {
            rax: words[0],
            rcx: words[1],
            rdx: words[2],
            rbx: words[3],
            unused_rsp: words[4],
            rbp: words[5],
            rsi: words[6],
            rdi: words[7],
            r8: words[8],
            r9: words[9],
            r10: words[10],
            r11: words[11],
            r12: words[12],
            r13: words[13],
            r14: words[14],
            r15: words[15],
        };
        assert(registers.spec_words() =~= words@);
        registers
    }

    /// What the exit trampoline needs to leave the hypervisor for the
    /// kernel `linux`: it pops the register block, switches to the kernel's
    /// stack and continues at the kernel's instruction pointer. The
    /// trampoline does not return.
    pub fn return_to_linux(&self, linux: &LinuxContext) -> (plan: ResumePlan)
        ensures
            plan.registers@ == self.spec_words(),
            plan.rsp == linux.rsp,
            plan.rip == linux.rip,
    {
        ResumePlan { registers: self.to_words(), rsp: linux.rsp, rip: linux.rip }
    }
}

impl Default for GuestRegisters {
    fn default() -> (registers: GuestRegisters)
        ensures
            registers.spec_words() == Seq::new(16, |i: int| 0u64),
    {
        let registers = GuestRegisters {
            rax: 0,
            rcx: 0,
            rdx: 0,
            rbx: 0,
            unused_rsp: 0,
            rbp: 0,
            rsi: 0,
            rdi: 0,
            r8: 0,
            r9: 0,
            r10: 0,
            r11: 0,
            r12: 0,
            r13: 0,
            r14: 0,
            r15: 0,
        };
        assert(registers.spec_words() =~= Seq::new(16, |i: int| 0u64));
        registers
    }
}

impl HvTables {
    /// The state that the entry sequence leaves behind: the hypervisor's
    /// tables, code segment, task register and page attribute table, and
    /// null data and stack segments.
    pub open spec fn spec_entered(self, current: CpuState) -> CpuState {
        CpuState {
            gdt: self.gdt,
            idt: self.idt,
            cs: self.kcode_selector,
            ds: 0,
            es: 0,
            ss: 0,
            tr: self.tss_selector,
            pat: HV_PAT,
            ..current
        }
    }
}

impl LinuxContext {
    /// The state that the restore sequence leaves behind: every register
    /// has the snapshot's value; CR0 and CR4 keep their reserved bits.
    pub open spec fn spec_resumed(self, current: CpuState) -> CpuState {
        CpuState {
            cs: self.cs.selector,
            ds: self.ds.selector,
            es: self.es.selector,
            ss: self.ss.selector,
            fs: self.fs.selector,
            gs: self.gs.selector,
            tr: self.tss.selector,
            gdt: self.gdt,
            idt: self.idt,
            cr0: (current.cr0 & !CR0_FLAGS) | (self.cr0 & CR0_FLAGS),
            cr3: (self.cr3 & !CR3_FLAGS) | (self.cr3_flags as u64),
            cr4: (current.cr4 & !CR4_FLAGS) | (self.cr4 & CR4_FLAGS),
            efer: self.efer,
            star: self.star,
            lstar: self.lstar,
            cstar: self.cstar,
            fmask: self.fmask,
            fs_base: self.fs.base,
            gs_base: self.gs.base,
            kernel_gsbase: self.kernel_gsbase,
            pat: self.pat,
            mtrr_def_type: self.mtrr_def_type,
        }
    }
}

/// Performing the entry sequence on any state installs the hypervisor's
/// tables and segments and changes nothing else.
pub proof fn lemma_entry_installs(hv: HvTables, current: CpuState)
    ensures
        current.spec_apply_all(hv.spec_entry_ops()) == hv.spec_entered(current),
{
    let ops = hv.spec_entry_ops();
    let s0 = current;
    assert(current.spec_apply_upto(ops, 0) == s0);
    let s1 = s0.spec_apply(ops[0]);
    assert(current.spec_apply_upto(ops, 1) == s1);
    let s2 = s1.spec_apply(ops[1]);
    assert(current.spec_apply_upto(ops, 2) == s2);
    let s3 = s2.spec_apply(ops[2]);
    assert(current.spec_apply_upto(ops, 3) == s3);
    let s4 = s3.spec_apply(ops[3]);
    assert(current.spec_apply_upto(ops, 4) == s4);
    let s5 = s4.spec_apply(ops[4]);
    assert(current.spec_apply_upto(ops, 5) == s5);
    let s6 = s5.spec_apply(ops[5]);
    assert(current.spec_apply_upto(ops, 6) == s6);
    let s7 = s6.spec_apply(ops[6]);
    assert(current.spec_apply_upto(ops, 7) == s7);
    let s8 = s7.spec_apply(ops[7]);
    assert(current.spec_apply_upto(ops, 8) == s8);
}

/// Restoring a snapshot on any state sets every register that the snapshot
/// holds to the snapshot's value; of CR0 and CR4, the defined flags.
pub proof fn lemma_restore_writes_snapshot(context: LinuxContext, current: CpuState)
    ensures
        current.spec_apply_all(context.spec_restore_ops()) == context.spec_resumed(current),
{
    let ops = context.spec_restore_ops();
    let s0 = current;
    assert(current.spec_apply_upto(ops, 0) == s0);
    let s1 = s0.spec_apply(ops[0]);
    assert(current.spec_apply_upto(ops, 1) == s1);
    let s2 = s1.spec_apply(ops[1]);
    assert(current.spec_apply_upto(ops, 2) == s2);
    let s3 = s2.spec_apply(ops[2]);
    assert(current.spec_apply_upto(ops, 3) == s3);
    let s4 = s3.spec_apply(ops[3]);
    assert(current.spec_apply_upto(ops, 4) == s4);
    let s5 = s4.spec_apply(ops[4]);
    assert(current.spec_apply_upto(ops, 5) == s5);
    let s6 = s5.spec_apply(ops[5]);
    assert(current.spec_apply_upto(ops, 6) == s6);
    let s7 = s6.spec_apply(ops[6]);
    assert(current.spec_apply_upto(ops, 7) == s7);
    let s8 = s7.spec_apply(ops[7]);
    assert(current.spec_apply_upto(ops, 8) == s8);
    let s9 = s8.spec_apply(ops[8]);
    assert(current.spec_apply_upto(ops, 9) == s9);
    let s10 = s9.spec_apply(ops[9]);
    assert(current.spec_apply_upto(ops, 10) == s10);
    let s11 = s10.spec_apply(ops[10]);
    assert(current.spec_apply_upto(ops, 11) == s11);
    let s12 = s11.spec_apply(ops[11]);
    assert(current.spec_apply_upto(ops, 12) == s12);
    let s13 = s12.spec_apply(ops[12]);
    assert(current.spec_apply_upto(ops, 13) == s13);
    let s14 = s13.spec_apply(ops[13]);
    assert(current.spec_apply_upto(ops, 14) == s14);
    let s15 = s14.spec_apply(ops[14]);
    assert(current.spec_apply_upto(ops, 15) == s15);
    let s16 = s15.spec_apply(ops[15]);
    assert(current.spec_apply_upto(ops, 16) == s16);
    let s17 = s16.spec_apply(ops[16]);
    assert(current.spec_apply_upto(ops, 17) == s17);
    let s18 = s17.spec_apply(ops[17]);
    assert(current.spec_apply_upto(ops, 18) == s18);
    let s19 = s18.spec_apply(ops[18]);
    assert(current.spec_apply_upto(ops, 19) == s19);
    let s20 = s19.spec_apply(ops[19]);
    assert(current.spec_apply_upto(ops, 20) == s20);
    let s21 = s20.spec_apply(ops[20]);
    assert(current.spec_apply_upto(ops, 21) == s21);
    let s22 = s21.spec_apply(ops[21]);
    assert(current.spec_apply_upto(ops, 22) == s22);
}

/// A snapshot that is restored right after it was taken gives back every
/// register bit for bit as capture found it, whatever tables the
/// hypervisor ran on in between.
pub proof fn lemma_capture_then_restore(
    regs: Seq<u64>,
    linux_sp: u64,
    hw: CpuState,
    gdt_table: Seq<u64>,
    hv: HvTables,
)
    requires
        LinuxContext::spec_can_capture(linux_sp, hw, gdt_table, hv),
    ensures
        hw.spec_apply_all(hv.spec_entry_ops()).spec_apply_all(
            LinuxContext::spec_capture(regs, linux_sp, hw, gdt_table).spec_restore_ops(),
        ) == hw,
{
    let context = LinuxContext::spec_capture(regs, linux_sp, hw, gdt_table);
    lemma_entry_installs(hv, hw);
    lemma_restore_writes_snapshot(context, hv.spec_entered(hw));
    lemma_control_bits(hw.cr0, hw.cr3, hw.cr4, hw.cr0, hw.cr4);
}

/// In the restore sequence CR3 is written after CR0 and CR4, and the code
/// segment is reloaded before the stack segment and every data segment.
pub proof fn lemma_restore_order(context: LinuxContext)
    ensures
        forall|i: int, j: int|
            0 <= i < 22 && 0 <= j < 22 && (#[trigger] context.spec_restore_ops()[i]) is WriteCr3 && ((
            #[trigger] context.spec_restore_ops()[j]) is WriteCr0 || context.spec_restore_ops()[j] is WriteCr4)
                ==> j < i,
        forall|i: int, j: int|
            0 <= i < 22 && 0 <= j < 22 && (#[trigger] context.spec_restore_ops()[i]) is LoadCs && ((
            #[trigger] context.spec_restore_ops()[j]) is LoadSs || context.spec_restore_ops()[j] is LoadDs
                || context.spec_restore_ops()[j] is LoadEs || context.spec_restore_ops()[j] is LoadFs
                || context.spec_restore_ops()[j] is LoadGs) ==> i < j,
        context.spec_restore_ops().len() == 22,
{
    let ops = context.spec_restore_ops();
    assert forall|i: int| 0 <= i < 22 implies ((#[trigger] ops[i]) is WriteCr3 <==> i == 10) && ((
    ops[i] is WriteCr0 || ops[i] is WriteCr4) <==> (i == 8 || i == 9)) && (ops[i] is LoadCs <==> i
        == 14) && ((ops[i] is LoadSs || ops[i] is LoadDs || ops[i] is LoadEs || ops[i] is LoadFs
        || ops[i] is LoadGs) <==> 15 <= i <= 19) by {
        if i < 7 {
        } else if i < 14 {
        } else {
        }
    }
}

} // verus!
