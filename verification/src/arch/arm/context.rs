//! The switch between the interrupted kernel and the hypervisor.
//!
//! Capture reads the register block that the entry code pushed; restore
//! hands back the register writes that resume the kernel, in the order in
//! which they are performed, and ends with the branch that does not return.

use vstd::prelude::*;

verus! {

/// Number of words in the register block that the entry code pushes: x0,
/// x29, x30, x1 to x28, the stack pointer and the return address.
pub const SAVED_LINUX_REGS: usize = 33;

/// The state of the interrupted kernel.
#[derive(Clone, Copy, Debug, PartialEq, Eq, Structural)]
pub struct LinuxContext {
    pub sp: u64,
    pub pc: u64,
    pub x29: u64,
    pub x30: u64,
    pub x1: u64,
    pub x2: u64,
    pub x3: u64,
    pub x4: u64,
    pub x5: u64,
    pub x6: u64,
    pub x7: u64,
    pub x8: u64,
    pub x9: u64,
    pub x10: u64,
    pub x11: u64,
    pub x12: u64,
    pub x13: u64,
    pub x14: u64,
    pub x15: u64,
    pub x16: u64,
    pub x17: u64,
    pub x18: u64,
    pub x19: u64,
    pub x20: u64,
    pub x21: u64,
    pub x22: u64,
    pub x23: u64,
    pub x24: u64,
    pub x25: u64,
    pub x26: u64,
    pub x27: u64,
    pub x28: u64,
}

/// The registers of the guest, in the order in which the entry and exit
/// code stores and loads them.
#[derive(Clone, Copy, Debug, PartialEq, Eq, Structural)]
pub struct GuestRegisters {
    pub x0: u64,
    pub x1: u64,
    pub x2: u64,
    pub x3: u64,
    pub x4: u64,
    pub x5: u64,
    pub x6: u64,
    pub x7: u64,
    pub x8: u64,
    pub x9: u64,
    pub x10: u64,
    pub x11: u64,
    pub x12: u64,
    pub x13: u64,
    pub x14: u64,
    pub x15: u64,
    pub x16: u64,
    pub x17: u64,
    pub x18: u64,
    pub x19: u64,
    pub x20: u64,
    pub x21: u64,
    pub x22: u64,
    pub x23: u64,
    pub x24: u64,
    pub x25: u64,
    pub x26: u64,
    pub x27: u64,
    pub x28: u64,
    pub x29: u64,
    pub x30: u64,
    pub sp: u64,
    pub pc: u64,
}

/// One step of the sequence that resumes the kernel.
#[derive(Clone, Copy, Debug, PartialEq, Eq, Structural)]
pub enum ResumeOp {
    /// Write the general-purpose register with the given number.
    WriteX(u8, u64),
    /// Write the stack pointer.
    SetStackPointer(u64),
    /// Branch to the address. Nothing is executed after this step.
    Branch(u64),
}

/// What the exit trampoline needs to resume the kernel: the register block
/// to load, and the stack pointer and address to continue with.
#[derive(Clone, Copy, Debug, PartialEq, Eq)]
pub struct ResumePlan {
    pub registers: [u64; 31],
    pub sp: u64,
    pub pc: u64,
}

impl LinuxContext {
    /// The snapshot held in a register block: slot 0 is x0, which is not
    /// kept; slots 1 and 2 are the frame pointer and the link register;
    /// slots 3 to 30 are x1 to x28; slots 31 and 32 are the stack pointer
    /// and the address to resume at.
    pub open spec fn spec_load_from(regs: Seq<u64>) -> LinuxContext {
        LinuxContext {
            sp: regs[31],
            pc: regs[32],
            x29: regs[1],
            x30: regs[2],
            x1: regs[3],
            x2: regs[4],
            x3: regs[5],
            x4: regs[6],
            x5: regs[7],
            x6: regs[8],
            x7: regs[9],
            x8: regs[10],
            x9: regs[11],
            x10: regs[12],
            x11: regs[13],
            x12: regs[14],
            x13: regs[15],
            x14: regs[16],
            x15: regs[17],
            x16: regs[18],
            x17: regs[19],
            x18: regs[20],
            x19: regs[21],
            x20: regs[22],
            x21: regs[23],
            x22: regs[24],
            x23: regs[25],
            x24: regs[26],
            x25: regs[27],
            x26: regs[28],
            x27: regs[29],
            x28: regs[30],
        }
    }

    /// The state after one step of a resume sequence. A write to a register
    /// that the snapshot does not hold changes nothing.
    pub open spec fn spec_apply(self, op: ResumeOp) -> LinuxContext {
        match op {
            ResumeOp::SetStackPointer(value) => LinuxContext { sp: value, ..self },
            ResumeOp::Branch(value) => LinuxContext { pc: value, ..self },
            ResumeOp::WriteX(n, value) => {
                if n == 1 {
                    LinuxContext { x1: value, ..self }
                } else if n == 2 {
                    LinuxContext { x2: value, ..self }
                } else if n == 3 {
                    LinuxContext { x3: value, ..self }
                } else if n == 4 {
                    LinuxContext { x4: value, ..self }
                } else if n == 5 {
                    LinuxContext { x5: value, ..self }
                } else if n == 6 {
                    LinuxContext { x6: value, ..self }
                } else if n == 7 {
                    LinuxContext { x7: value, ..self }
                } else if n == 8 {
                    LinuxContext { x8: value, ..self }
                } else if n == 9 {
                    LinuxContext { x9: value, ..self }
                } else if n == 10 {
                    LinuxContext { x10: value, ..self }
                } else if n == 11 {
                    LinuxContext { x11: value, ..self }
                } else if n == 12 {
                    LinuxContext { x12: value, ..self }
                } else if n == 13 {
                    LinuxContext { x13: value, ..self }
                } else if n == 14 {
                    LinuxContext { x14: value, ..self }
                } else if n == 15 {
                    LinuxContext { x15: value, ..self }
                } else if n == 16 {
                    LinuxContext { x16: value, ..self }
                } else if n == 17 {
                    LinuxContext { x17: value, ..self }
                } else if n == 18 {
                    LinuxContext { x18: value, ..self }
                } else if n == 19 {
                    LinuxContext { x19: value, ..self }
                } else if n == 20 {
                    LinuxContext { x20: value, ..self }
                } else if n == 21 {
                    LinuxContext { x21: value, ..self }
                } else if n == 22 {
                    LinuxContext { x22: value, ..self }
                } else if n == 23 {
                    LinuxContext { x23: value, ..self }
                } else if n == 24 {
                    LinuxContext { x24: value, ..self }
                } else if n == 25 {
                    LinuxContext { x25: value, ..self }
                } else if n == 26 {
                    LinuxContext { x26: value, ..self }
                } else if n == 27 {
                    LinuxContext { x27: value, ..self }
                } else if n == 28 {
                    LinuxContext { x28: value, ..self }
                } else if n == 29 {
                    LinuxContext { x29: value, ..self }
                } else if n == 30 {
                    LinuxContext { x30: value, ..self }
                } else {
                    self
                }
            },
        }
    }

    /// The state after the first `n` steps of `ops`.
    pub open spec fn spec_apply_upto(self, ops: Seq<ResumeOp>, n: nat) -> LinuxContext
        decreases n,
    {
        if n == 0 {
            self
        } else {
            self.spec_apply_upto(ops, (n - 1) as nat).spec_apply(ops[n - 1])
        }
    }

    /// The steps that resume the kernel: every general-purpose register of
    /// the snapshot, then the stack pointer, then the branch.
    pub open spec fn spec_restore_ops(self) -> Seq<ResumeOp> {
        seq![
            ResumeOp::WriteX(1, self.x1),
            ResumeOp::WriteX(2, self.x2),
            ResumeOp::WriteX(3, self.x3),
            ResumeOp::WriteX(4, self.x4),
            ResumeOp::WriteX(5, self.x5),
            ResumeOp::WriteX(6, self.x6),
            ResumeOp::WriteX(7, self.x7),
            ResumeOp::WriteX(8, self.x8),
            ResumeOp::WriteX(9, self.x9),
            ResumeOp::WriteX(10, self.x10),
            ResumeOp::WriteX(11, self.x11),
            ResumeOp::WriteX(12, self.x12),
            ResumeOp::WriteX(13, self.x13),
            ResumeOp::WriteX(14, self.x14),
            ResumeOp::WriteX(15, self.x15),
            ResumeOp::WriteX(16, self.x16),
            ResumeOp::WriteX(17, self.x17),
            ResumeOp::WriteX(18, self.x18),
            ResumeOp::WriteX(19, self.x19),
            ResumeOp::WriteX(20, self.x20),
            ResumeOp::WriteX(21, self.x21),
            ResumeOp::WriteX(22, self.x22),
            ResumeOp::WriteX(23, self.x23),
            ResumeOp::WriteX(24, self.x24),
            ResumeOp::WriteX(25, self.x25),
            ResumeOp::WriteX(26, self.x26),
            ResumeOp::WriteX(27, self.x27),
            ResumeOp::WriteX(28, self.x28),
            ResumeOp::WriteX(29, self.x29),
            ResumeOp::WriteX(30, self.x30),
            ResumeOp::SetStackPointer(self.sp),
            ResumeOp::Branch(self.pc),
        ]
    }

    /// Takes the snapshot of the interrupted kernel from the register block
    /// that the entry code pushed.
    pub fn load_from(regs: &[u64; 33]) -> (context: LinuxContext)
        ensures
            context == Self::spec_load_from(regs@),
    {
        LinuxContext {
            sp: regs[31],
            pc: regs[32],
            x29: regs[1],
            x30: regs[2],
            x1: regs[3],
            x2: regs[4],
            x3: regs[5],
            x4: regs[6],
            x5: regs[7],
            x6: regs[8],
            x7: regs[9],
            x8: regs[10],
            x9: regs[11],
            x10: regs[12],
            x11: regs[13],
            x12: regs[14],
            x13: regs[15],
            x14: regs[16],
            x15: regs[17],
            x16: regs[18],
            x17: regs[19],
            x18: regs[20],
            x19: regs[21],
            x20: regs[22],
            x21: regs[23],
            x22: regs[24],
            x23: regs[25],
            x24: regs[26],
            x25: regs[27],
            x26: regs[28],
            x27: regs[29],
            x28: regs[30],
        }
    }

    /// Performs one step of a resume sequence on the state.
    pub fn apply(&mut self, op: ResumeOp)
        ensures
            *final(self) == old(self).spec_apply(op),
    {
        match op {
            ResumeOp::SetStackPointer(value) => self.sp = value,
            ResumeOp::Branch(value) => self.pc = value,
            ResumeOp::WriteX(n, value) => {
                if n == 1 {
                    self.x1 = value;
                } else if n == 2 {
                    self.x2 = value;
                } else if n == 3 {
                    self.x3 = value;
                } else if n == 4 {
                    self.x4 = value;
                } else if n == 5 {
                    self.x5 = value;
                } else if n == 6 {
                    self.x6 = value;
                } else if n == 7 {
                    self.x7 = value;
                } else if n == 8 {
                    self.x8 = value;
                } else if n == 9 {
                    self.x9 = value;
                } else if n == 10 {
                    self.x10 = value;
                } else if n == 11 {
                    self.x11 = value;
                } else if n == 12 {
                    self.x12 = value;
                } else if n == 13 {
                    self.x13 = value;
                } else if n == 14 {
                    self.x14 = value;
                } else if n == 15 {
                    self.x15 = value;
                } else if n == 16 {
                    self.x16 = value;
                } else if n == 17 {
                    self.x17 = value;
                } else if n == 18 {
                    self.x18 = value;
                } else if n == 19 {
                    self.x19 = value;
                } else if n == 20 {
                    self.x20 = value;
                } else if n == 21 {
                    self.x21 = value;
                } else if n == 22 {
                    self.x22 = value;
                } else if n == 23 {
                    self.x23 = value;
                } else if n == 24 {
                    self.x24 = value;
                } else if n == 25 {
                    self.x25 = value;
                } else if n == 26 {
                    self.x26 = value;
                } else if n == 27 {
                    self.x27 = value;
                } else if n == 28 {
                    self.x28 = value;
                } else if n == 29 {
                    self.x29 = value;
                } else if n == 30 {
                    self.x30 = value;
                }
            },
        }
    }

    /// The steps that resume the kernel. The caller performs them in order;
    /// the last one does not return.
    pub fn restore(&self) -> (ops: Vec<ResumeOp>)
        ensures
            ops@ == self.spec_restore_ops(),
    {
        let mut ops: Vec<ResumeOp> = Vec::new();
        ops.push(ResumeOp::WriteX(1, self.x1));
        ops.push(ResumeOp::WriteX(2, self.x2));
        ops.push(ResumeOp::WriteX(3, self.x3));
        ops.push(ResumeOp::WriteX(4, self.x4));
        ops.push(ResumeOp::WriteX(5, self.x5));
        ops.push(ResumeOp::WriteX(6, self.x6));
        ops.push(ResumeOp::WriteX(7, self.x7));
        ops.push(ResumeOp::WriteX(8, self.x8));
        ops.push(ResumeOp::WriteX(9, self.x9));
        ops.push(ResumeOp::WriteX(10, self.x10));
        ops.push(ResumeOp::WriteX(11, self.x11));
        ops.push(ResumeOp::WriteX(12, self.x12));
        ops.push(ResumeOp::WriteX(13, self.x13));
        ops.push(ResumeOp::WriteX(14, self.x14));
        ops.push(ResumeOp::WriteX(15, self.x15));
        ops.push(ResumeOp::WriteX(16, self.x16));
        ops.push(ResumeOp::WriteX(17, self.x17));
        ops.push(ResumeOp::WriteX(18, self.x18));
        ops.push(ResumeOp::WriteX(19, self.x19));
        ops.push(ResumeOp::WriteX(20, self.x20));
        ops.push(ResumeOp::WriteX(21, self.x21));
        ops.push(ResumeOp::WriteX(22, self.x22));
        ops.push(ResumeOp::WriteX(23, self.x23));
        ops.push(ResumeOp::WriteX(24, self.x24));
        ops.push(ResumeOp::WriteX(25, self.x25));
        ops.push(ResumeOp::WriteX(26, self.x26));
        ops.push(ResumeOp::WriteX(27, self.x27));
        ops.push(ResumeOp::WriteX(28, self.x28));
        ops.push(ResumeOp::WriteX(29, self.x29));
        ops.push(ResumeOp::WriteX(30, self.x30));
        ops.push(ResumeOp::SetStackPointer(self.sp));
        ops.push(ResumeOp::Branch(self.pc));
        assert(ops@ =~= self.spec_restore_ops());
        ops
    }
}

/// The context switch of one processor: either the interrupted kernel runs
/// and no snapshot is held, or the hypervisor runs and holds the kernel's
/// snapshot. A snapshot is taken once and resumed once.
#[derive(Debug)]
pub struct ContextSwitch {
    snapshot: Option<LinuxContext>,
}

impl ContextSwitch {
    /// The snapshot that is held while the hypervisor runs.
    pub closed spec fn spec_snapshot(&self) -> Option<LinuxContext> {
        self.snapshot
    }

    /// The state of a processor on which the kernel runs.
    pub fn new() -> (state: ContextSwitch)
        ensures
            state.spec_snapshot() is None,
    {
        ContextSwitch { snapshot: None }
    }

    /// Whether the hypervisor runs and holds a snapshot.
    pub fn is_captured(&self) -> (r: bool)
        ensures
            r == self.spec_snapshot() is Some,
    {
        self.snapshot.is_some()
    }

    /// Enters the hypervisor: takes the snapshot of the kernel from its
    /// register block and keeps it.
    pub fn capture(&mut self, regs: &[u64; 33])
        requires
            old(self).spec_snapshot() is None,
        ensures
            final(self).spec_snapshot() == Some(LinuxContext::spec_load_from(regs@)),
    {
        self.snapshot = Some(LinuxContext::load_from(regs));
    }

    /// Leaves the hypervisor: gives up the snapshot and returns it with the
    /// steps that resume the kernel.
    pub fn restore(&mut self) -> (r: (LinuxContext, Vec<ResumeOp>))
        requires
            old(self).spec_snapshot() is Some,
        ensures
            final(self).spec_snapshot() is None,
            r.0 == old(self).spec_snapshot().unwrap(),
            r.1@ == r.0.spec_restore_ops(),
    {
        let context = self.snapshot.unwrap();
        self.snapshot = None;
        let ops = context.restore();
        (context, ops)
    }
}

impl GuestRegisters {
    /// The general-purpose registers x0 to x30 as the exit trampoline
    /// loads them, lowest address first.
    pub open spec fn spec_words(self) -> Seq<u64> {
        seq![
            self.x0,
            self.x1,
            self.x2,
            self.x3,
            self.x4,
            self.x5,
            self.x6,
            self.x7,
            self.x8,
            self.x9,
            self.x10,
            self.x11,
            self.x12,
            self.x13,
            self.x14,
            self.x15,
            self.x16,
            self.x17,
            self.x18,
            self.x19,
            self.x20,
            self.x21,
            self.x22,
            self.x23,
            self.x24,
            self.x25,
            self.x26,
            self.x27,
            self.x28,
            self.x29,
            self.x30,
        ]
    }

    /// The general-purpose registers as the exit trampoline loads them.
    pub fn to_words(&self) -> (words: [u64; 31])
        ensures
            words@ == self.spec_words(),
    {
        let words: [u64; 31] = [
            self.x0,
            self.x1,
            self.x2,
            self.x3,
            self.x4,
            self.x5,
            self.x6,
            self.x7,
            self.x8,
            self.x9,
            self.x10,
            self.x11,
            self.x12,
            self.x13,
            self.x14,
            self.x15,
            self.x16,
            self.x17,
            self.x18,
            self.x19,
            self.x20,
            self.x21,
            self.x22,
            self.x23,
            self.x24,
            self.x25,
            self.x26,
            self.x27,
            self.x28,
            self.x29,
            self.x30,
        ];
        assert(words@ =~= self.spec_words());
        words
    }

    /// What the exit trampoline needs to leave the hypervisor for the
    /// kernel `linux`: it loads the register block, switches to the
    /// kernel's stack and branches to the kernel's address. The trampoline
    /// does not return.
    pub fn return_to_linux(&self, linux: &LinuxContext) -> (plan: ResumePlan)
        ensures
            plan.registers@ == self.spec_words(),
            plan.sp == linux.sp,
            plan.pc == linux.pc,
    {
        ResumePlan { registers: self.to_words(), sp: linux.sp, pc: linux.pc }
    }
}

impl Default for GuestRegisters {
    fn default() -> (registers: GuestRegisters)
        ensures
            registers.spec_words() == Seq::new(31, |i: int| 0u64),
            registers.sp == 0,
            registers.pc == 0,
    {
        let registers = GuestRegisters {
            x0: 0,
            x1: 0,
            x2: 0,
            x3: 0,
            x4: 0,
            x5: 0,
            x6: 0,
            x7: 0,
            x8: 0,
            x9: 0,
            x10: 0,
            x11: 0,
            x12: 0,
            x13: 0,
            x14: 0,
            x15: 0,
            x16: 0,
            x17: 0,
            x18: 0,
            x19: 0,
            x20: 0,
            x21: 0,
            x22: 0,
            x23: 0,
            x24: 0,
            x25: 0,
            x26: 0,
            x27: 0,
            x28: 0,
            x29: 0,
            x30: 0,
            sp: 0,
            pc: 0,
        };
        assert(registers.spec_words() =~= Seq::new(31, |i: int| 0u64));
        registers
    }
}

/// Restoring a snapshot gives back every register that the snapshot holds,
/// whatever the registers held before.
pub proof fn lemma_restore_gives_snapshot(context: LinuxContext, current: LinuxContext)
    ensures
        current.spec_apply_upto(context.spec_restore_ops(), 32) == context,
        context.spec_restore_ops().len() == 32,
        context.spec_restore_ops()[31] == ResumeOp::Branch(context.pc),
{
    let ops = context.spec_restore_ops();
    let s0 = current;
    assert(current.spec_apply_upto(ops, 0) == s0);
    let s1 = s0.spec_apply(ops[0]);
    assert(current.spec_apply_upto(ops, 1) == s1);
    let s2 = s1.spec_apply(ops[1]);
    assert(current.spec_apply_upto(ops, 2) == s2);
    let s3 = s2.spec_apply(ops[2]);
    assert(current.spec_apply_upto(ops, 3) == s3);
    let s4 = s3.spec_apply(ops[3]);
    assert(current.spec_apply_upto(ops, 4) == s4);
    let s5 = s4.spec_apply(ops[4]);
    assert(current.spec_apply_upto(ops, 5) == s5);
    let s6 = s5.spec_apply(ops[5]);
    assert(current.spec_apply_upto(ops, 6) == s6);
    let s7 = s6.spec_apply(ops[6]);
    assert(current.spec_apply_upto(ops, 7) == s7);
    let s8 = s7.spec_apply(ops[7]);
    assert(current.spec_apply_upto(ops, 8) == s8);
    let s9 = s8.spec_apply(ops[8]);
    assert(current.spec_apply_upto(ops, 9) == s9);
    let s10 = s9.spec_apply(ops[9]);
    assert(current.spec_apply_upto(ops, 10) == s10);
    let s11 = s10.spec_apply(ops[10]);
    assert(current.spec_apply_upto(ops, 11) == s11);
    let s12 = s11.spec_apply(ops[11]);
    assert(current.spec_apply_upto(ops, 12) == s12);
    let s13 = s12.spec_apply(ops[12]);
    assert(current.spec_apply_upto(ops, 13) == s13);
    let s14 = s13.spec_apply(ops[13]);
    assert(current.spec_apply_upto(ops, 14) == s14);
    let s15 = s14.spec_apply(ops[14]);
    assert(current.spec_apply_upto(ops, 15) == s15);
    let s16 = s15.spec_apply(ops[15]);
    assert(current.spec_apply_upto(ops, 16) == s16);
    let s17 = s16.spec_apply(ops[16]);
    assert(current.spec_apply_upto(ops, 17) == s17);
    let s18 = s17.spec_apply(ops[17]);
    assert(current.spec_apply_upto(ops, 18) == s18);
    let s19 = s18.spec_apply(ops[18]);
    assert(current.spec_apply_upto(ops, 19) == s19);
    let s20 = s19.spec_apply(ops[19]);
    assert(current.spec_apply_upto(ops, 20) == s20);
    let s21 = s20.spec_apply(ops[20]);
    assert(current.spec_apply_upto(ops, 21) == s21);
    let s22 = s21.spec_apply(ops[21]);
    assert(current.spec_apply_upto(ops, 22) == s22);
    let s23 = s22.spec_apply(ops[22]);
    assert(current.spec_apply_upto(ops, 23) == s23);
    let s24 = s23.spec_apply(ops[23]);
    assert(current.spec_apply_upto(ops, 24) == s24);
    let s25 = s24.spec_apply(ops[24]);
    assert(current.spec_apply_upto(ops, 25) == s25);
    let s26 = s25.spec_apply(ops[25]);
    assert(current.spec_apply_upto(ops, 26) == s26);
    let s27 = s26.spec_apply(ops[26]);
    assert(current.spec_apply_upto(ops, 27) == s27);
    let s28 = s27.spec_apply(ops[27]);
    assert(current.spec_apply_upto(ops, 28) == s28);
    let s29 = s28.spec_apply(ops[28]);
    assert(current.spec_apply_upto(ops, 29) == s29);
    let s30 = s29.spec_apply(ops[29]);
    assert(current.spec_apply_upto(ops, 30) == s30);
    let s31 = s30.spec_apply(ops[30]);
    assert(current.spec_apply_upto(ops, 31) == s31);
    let s32 = s31.spec_apply(ops[31]);
    assert(current.spec_apply_upto(ops, 32) == s32);
}

} // verus!
