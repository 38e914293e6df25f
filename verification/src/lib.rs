//! A minimal process tracer core.
//!
//! Given the identifier of a running process, a tracer attaches to it,
//! halts it at every syscall entry and exit boundary, reads its register
//! file to recognise the output-write syscall, reconstructs the written
//! buffer out of the target's address space, and reports each write as a
//! line `FD: <fd>: "<content>"`.
//!
//! This crate holds the verified decision core: the entry/exit phase state
//! machine, the classification of platform return codes and wait statuses,
//! and the rendering of reports. The platform primitives themselves
//! (attach, resume, register and memory reads) are raw syscalls that a thin
//! driver performs, handing their results to this core as plain values.

pub mod model;
pub mod regs;
pub mod render;
pub mod session;
pub mod status;

pub use regs::Regs;
pub use regs::WRITE_SYSCALL_NUMBER;
pub use session::ReportRequest;
pub use session::SyscallBoundaryPhase;
pub use session::TracedProcess;
