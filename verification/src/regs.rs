use vstd::prelude::*;

verus! {

/// Number of the output-write syscall in the fixed 64-bit calling
/// convention this tracer targets.
pub const WRITE_SYSCALL_NUMBER: u64 = 1;

/// An immutable snapshot of the target's general-purpose and segment
/// registers at the instant of a stop.
///
/// The layout follows the fixed 64-bit calling convention: the syscall
/// number is held in `orig_rax`, the first three syscall arguments in
/// `rdi`, `rsi` and `rdx`, and the syscall return value in `rax`. For the
/// output-write syscall, `rdi` is the file descriptor, `rsi` the buffer
/// address and `rdx` the length.
#[derive(Clone, Copy)]
pub struct Regs {
    pub r15: u64,
    pub r14: u64,
    pub r13: u64,
    pub r12: u64,
    pub rbp: u64,
    pub rbx: u64,
    pub r11: u64,
    pub r10: u64,
    pub r9: u64,
    pub r8: u64,
    pub rax: u64,
    pub rcx: u64,
    pub rdx: u64,
    pub rsi: u64,
    pub rdi: u64,
    pub orig_rax: u64,
    pub rip: u64,
    pub cs: u64,
    pub eflags: u64,
    pub rsp: u64,
    pub ss: u64,
    pub fs_base: u64,
    pub gs_base: u64,
    pub ds: u64,
    pub es: u64,
    pub fs: u64,
    pub gs: u64,
}

impl Regs {
    /// Whether this snapshot was taken at a boundary of the output-write
    /// syscall.
    pub open spec fn spec_is_output_write(self) -> bool {
        self.orig_rax == WRITE_SYSCALL_NUMBER
    }

    /// Recognise the output-write syscall from the syscall-number register.
    pub fn is_output_write(&self) -> (r: bool)
        ensures
            r == self.spec_is_output_write(),
    {
        self.orig_rax == WRITE_SYSCALL_NUMBER
    }

    /// A snapshot with every register zero, as a driver allocates one
    /// before asking the platform to fill it.
    pub fn zeroed() -> (r: Regs)
        ensures
            r == (Regs {
                r15: 0,
                r14: 0,
                r13: 0,
                r12: 0,
                rbp: 0,
                rbx: 0,
                r11: 0,
                r10: 0,
                r9: 0,
                r8: 0,
                rax: 0,
                rcx: 0,
                rdx: 0,
                rsi: 0,
                rdi: 0,
                orig_rax: 0,
                rip: 0,
                cs: 0,
                eflags: 0,
                rsp: 0,
                ss: 0,
                fs_base: 0,
                gs_base: 0,
                ds: 0,
                es: 0,
                fs: 0,
                gs: 0,
            }),
    {
        Regs {
            r15: 0,
            r14: 0,
            r13: 0,
            r12: 0,
            rbp: 0,
            rbx: 0,
            r11: 0,
            r10: 0,
            r9: 0,
            r8: 0,
            rax: 0,
            rcx: 0,
            rdx: 0,
            rsi: 0,
            rdi: 0,
            orig_rax: 0,
            rip: 0,
            cs: 0,
            eflags: 0,
            rsp: 0,
            ss: 0,
            fs_base: 0,
            gs_base: 0,
            ds: 0,
            es: 0,
            fs: 0,
            gs: 0,
        }
    }
}

} // verus!
