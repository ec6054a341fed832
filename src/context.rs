//! Saved user-mode register state.
use vstd::prelude::*;

verus! {

/// The CPU state that the trap entry saves on top of the kernel stack.
#[derive(Debug, Clone, Copy)]
pub struct TrapFrame {
    /// The six syscall argument registers, `arg0` first.
    pub args: [usize; 6],
    /// The instruction pointer.
    pub ip: usize,
    /// The user stack pointer.
    pub sp: usize,
    /// The register that carries a syscall's return value.
    pub retval: usize,
}

/// The instruction set the kernel runs on.
#[derive(Debug, Clone, Copy, PartialEq, Eq, Structural)]
pub enum Isa {
    X86_64,
    Aarch64,
    Riscv64,
    Loongarch64,
}

/// Whether a trap on this instruction set returns to the trapping
/// instruction, so that a resumed syscall must step over it.
pub open spec fn returns_to_trapping_insn(isa: Isa) -> bool {
    isa == Isa::Riscv64 || isa == Isa::Loongarch64
}

/// The width of the syscall instruction on the instruction sets that return
/// to it.
pub const SYSCALL_INSN_LEN: usize = 4;

impl Isa {
    /// Whether a trap returns to the trapping instruction.
    pub fn returns_to_trapping_insn(self) -> (r: bool)
        ensures
            r == returns_to_trapping_insn(self),
    {
        match self {
            Isa::Riscv64 | Isa::Loongarch64 => true,
            Isa::X86_64 | Isa::Aarch64 => false,
        }
    }
}

impl TrapFrame {
    /// Syscall argument `i`.
    pub fn arg(&self, i: usize) -> (r: usize)
        requires
            i < 6,
        ensures
            r == self.args@[i as int],
    {
        self.args[i]
    }
}

/// The user-mode registers with which a task enters user space.
#[derive(Debug, Clone, Copy)]
pub struct UspaceContext {
    pub frame: TrapFrame,
}

impl UspaceContext {
    /// A context that starts at `entry` with the stack at `ustack_top`, and
    /// `arg0` in the first argument register.
    pub fn new(entry: usize, ustack_top: usize, arg0: usize) -> (r: UspaceContext)
        ensures
            r.frame.ip == entry,
            r.frame.sp == ustack_top,
            r.frame.args@ == seq![arg0, 0usize, 0usize, 0usize, 0usize, 0usize],
            r.frame.retval == 0,
    {
        UspaceContext { frame: TrapFrame { args: [arg0, 0, 0, 0, 0, 0], ip: entry, sp: ustack_top, retval: 0 } }
    }

    /// The context that resumes the state saved in `frame`.
    pub fn from_frame(frame: &TrapFrame) -> (r: UspaceContext)
        ensures
            r.frame == *frame,
    {
        UspaceContext { frame: *frame }
    }

    pub fn ip(&self) -> (r: usize)
        ensures
            r == self.frame.ip,
    {
        self.frame.ip
    }

    pub fn sp(&self) -> (r: usize)
        ensures
            r == self.frame.sp,
    {
        self.frame.sp
    }

    pub fn set_ip(&mut self, ip: usize)
        ensures
            final(self).frame == (TrapFrame { ip, ..old(self).frame }),
    {
        self.frame.ip = ip;
    }

    pub fn set_sp(&mut self, sp: usize)
        ensures
            final(self).frame == (TrapFrame { sp, ..old(self).frame }),
    {
        self.frame.sp = sp;
    }

    pub fn set_retval(&mut self, retval: usize)
        ensures
            final(self).frame == (TrapFrame { retval, ..old(self).frame }),
    {
        self.frame.retval = retval;
    }
}

/// The context a cloned child starts with: the parent's trapped state, on
/// the new stack where a non-zero one is given, past the syscall instruction where the
/// trap returns to it, and with a zero return value.
pub open spec fn child_context(frame: TrapFrame, stack: Option<usize>, isa: Isa) -> TrapFrame {
    TrapFrame {
        args: frame.args,
        ip: if returns_to_trapping_insn(isa) {
            frame.ip.wrapping_add(SYSCALL_INSN_LEN)
        } else {
            frame.ip
        },
        sp: match stack {
            Some(s) if s != 0 => s,
            _ => frame.sp,
        },
        retval: 0,
    }
}

/// Builds the context of a cloned child from the parent's trap frame.
pub fn clone_context(frame: &TrapFrame, stack: Option<usize>, isa: Isa) -> (r: UspaceContext)
    ensures
        r.frame == child_context(*frame, stack, isa),
{
    let mut uctx = UspaceContext::from_frame(frame);
    if let Some(s) = stack {
        if s != 0 {
            uctx.set_sp(s);
        }
    }
    if isa.returns_to_trapping_insn() {
        let ip = uctx.ip();
        uctx.set_ip(ip.wrapping_add(SYSCALL_INSN_LEN));
    }
    uctx.set_retval(0);
    uctx
}

} // verus!
