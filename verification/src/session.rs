use vstd::prelude::*;

use crate::regs::Regs;

verus! {

/// Which side of a syscall boundary the next output-write stop belongs to.
///
/// Every syscall produces two stops, one on entry and one on exit. The
/// phase starts at `Entering`, toggles on every stop that carries the
/// output-write syscall number, and is left untouched by every other stop,
/// so that stops of other syscalls never shift the entry/exit parity.
#[derive(Clone, Copy, PartialEq, Eq, Structural, Debug)]
pub enum SyscallBoundaryPhase {
    Entering,
    Exiting,
}

impl SyscallBoundaryPhase {
    /// The opposite phase.
    pub open spec fn spec_toggled(self) -> SyscallBoundaryPhase {
        match self {
            SyscallBoundaryPhase::Entering => SyscallBoundaryPhase::Exiting,
            SyscallBoundaryPhase::Exiting => SyscallBoundaryPhase::Entering,
        }
    }

    /// Move to the opposite phase.
    pub fn toggled(self) -> (r: SyscallBoundaryPhase)
        ensures
            r == self.spec_toggled(),
    {
        match self {
            SyscallBoundaryPhase::Entering => SyscallBoundaryPhase::Exiting,
            SyscallBoundaryPhase::Exiting => SyscallBoundaryPhase::Entering,
        }
    }
}

/// What the reconstructor must do after an output-write entry stop: read
/// `length` bytes at `buffer_address` out of the target's address space and
/// report them under descriptor `fd`.
#[derive(Clone, Copy, PartialEq, Eq, Structural, Debug)]
pub struct ReportRequest {
    pub fd: u64,
    pub buffer_address: u64,
    pub length: u64,
}

/// The phase after processing one boundary stop with register snapshot
/// `regs`: toggled on an output-write stop, unchanged otherwise.
pub open spec fn phase_after(phase: SyscallBoundaryPhase, regs: Regs) -> SyscallBoundaryPhase {
    if regs.spec_is_output_write() {
        phase.spec_toggled()
    } else {
        phase
    }
}

/// The report that one boundary stop demands: only an output-write stop
/// seen in the `Entering` phase produces one, carrying the descriptor,
/// buffer address and length from the argument registers.
pub open spec fn report_request_of(phase: SyscallBoundaryPhase, regs: Regs) -> Option<
    ReportRequest,
> {
    if regs.spec_is_output_write() && phase is Entering {
        Some(ReportRequest { fd: regs.rdi, buffer_address: regs.rsi, length: regs.rdx })
    } else {
        None
    }
}

/// One trace session over one target process: its identifier and the only
/// state that persists between boundary stops, the entry/exit phase.
pub struct TracedProcess {
    pub pid: i32,
    pub phase: SyscallBoundaryPhase,
}

impl TracedProcess {
    /// A fresh session over `pid`. The first output-write stop a freshly
    /// attached tracer observes is a syscall entry, so the phase starts at
    /// `Entering`.
    pub fn new(pid: i32) -> (r: TracedProcess)
        ensures
            r.pid == pid,
            r.phase == SyscallBoundaryPhase::Entering,
    {
        TracedProcess { pid, phase: SyscallBoundaryPhase::Entering }
    }

    /// Process one boundary stop: decide whether it must be reported and
    /// advance the phase.
    ///
    /// An output-write stop in the `Entering` phase yields the report
    /// request and toggles the phase to `Exiting`; an output-write stop in
    /// the `Exiting` phase is suppressed (it is the same syscall's return)
    /// and toggles back; any other stop changes nothing and yields nothing.
    pub fn observe_stop(&mut self, regs: &Regs) -> (r: Option<ReportRequest>)
        ensures
            final(self).pid == old(self).pid,
            final(self).phase == phase_after(old(self).phase, *regs),
            r == report_request_of(old(self).phase, *regs),
    {
        if regs.is_output_write() {
            let request = if self.phase == SyscallBoundaryPhase::Entering {
                Some(ReportRequest { fd: regs.rdi, buffer_address: regs.rsi, length: regs.rdx })
            } else {
                None
            };
            self.phase = self.phase.toggled();
            request
        } else {
            None
        }
    }
}

} // verus!
