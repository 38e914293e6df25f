use vstd::prelude::*;

verus! {

/// Errno value for an operation refused for lack of privilege.
pub const ERRNO_PERMISSION: i64 = 1;

/// Signal number of the trap that marks a syscall-boundary stop.
pub const TRAP_SIGNAL: u32 = 5;

/// Why establishing tracing control over a target failed.
#[derive(Clone, Copy, PartialEq, Eq, Structural, Debug)]
pub enum AttachError {
    /// The caller lacks privilege over the target process.
    PermissionDenied,
    /// No process with the given identifier exists.
    NoSuchProcess,
}

/// Why resuming to the next syscall boundary failed.
#[derive(Clone, Copy, PartialEq, Eq, Structural, Debug)]
pub enum StepError {
    /// The target no longer exists; the control loop must terminate.
    ProcessGone,
    /// The target was terminated by an uncaught signal.
    SignalDelivered,
}

/// Why reading the target's register file failed.
#[derive(Clone, Copy, PartialEq, Eq, Structural, Debug)]
pub enum ReadError {
    /// The target was not halted at a boundary stop, so its register
    /// content is undefined; a usage error, not to be retried.
    InvalidState,
}

/// Why reading one unit out of the target's address space failed.
#[derive(Clone, Copy, PartialEq, Eq, Structural, Debug)]
pub enum RemoteReadError {
    /// The address is not mapped in the target.
    UnmappedAddress,
    /// The tracer may not read the target's memory there.
    PermissionDenied,
}

/// How one blocking wait for the target ended.
#[derive(Clone, Copy, PartialEq, Eq, Structural, Debug)]
pub enum StopEvent {
    /// The target halted at a syscall entry or exit boundary.
    SyscallBoundary,
    /// The target halted because some other signal was delivered; the
    /// control loop treats this like a boundary stop, with no
    /// signal-specific handling.
    SignalDelivered,
    /// The target exited; terminal, and not an error.
    Exited,
}

/// Whether a wait status says the target exited, under the conventional
/// encoding: the low seven bits are zero.
pub open spec fn wait_says_exited(status: u32) -> bool {
    status & 0x7f == 0
}

/// Whether a wait status says the target is halted under tracer control:
/// the low byte is all ones over the seven status bits.
pub open spec fn wait_says_stopped(status: u32) -> bool {
    status & 0xff == 0x7f
}

/// The signal that halted a stopped target, from the second byte of the
/// wait status.
pub open spec fn wait_stop_signal(status: u32) -> u32 {
    (status >> 8) & 0xff
}

/// Classify the result of asking the platform for tracing control over a
/// process: zero is success, a negated errno is failure.
///
/// The privilege errno maps to `PermissionDenied`; every other failure
/// means the identifier named no process that the platform would let this
/// tracer see, and maps to `NoSuchProcess`.
pub fn classify_attach(ret: i64) -> (r: Result<(), AttachError>)
    ensures
        r is Ok <==> ret >= 0,
        ret == -ERRNO_PERMISSION ==> r == Err::<(), AttachError>(AttachError::PermissionDenied),
        ret < 0 && ret != -ERRNO_PERMISSION ==> r == Err::<(), AttachError>(
            AttachError::NoSuchProcess,
        ),
{
    if ret >= 0 {
        Ok(())
    } else if ret == -ERRNO_PERMISSION {
        Err(AttachError::PermissionDenied)
    } else {
        Err(AttachError::NoSuchProcess)
    }
}

/// Classify the result of asking the platform to resume the target up to
/// its next syscall boundary: zero is success; any failure means the
/// target no longer exists, which must terminate the control loop.
pub fn classify_resume(ret: i64) -> (r: Result<(), StepError>)
    ensures
        r is Ok <==> ret >= 0,
        ret < 0 ==> r == Err::<(), StepError>(StepError::ProcessGone),
{
    if ret >= 0 {
        Ok(())
    } else {
        Err(StepError::ProcessGone)
    }
}

/// Classify the result of asking the platform for the register file of a
/// halted target: zero is success; any failure means the target was not in
/// a readable stopped state.
pub fn classify_register_read(ret: i64) -> (r: Result<(), ReadError>)
    ensures
        r is Ok <==> ret >= 0,
        ret < 0 ==> r == Err::<(), ReadError>(ReadError::InvalidState),
{
    if ret >= 0 {
        Ok(())
    } else {
        Err(ReadError::InvalidState)
    }
}

/// Classify the result of reading one unit out of the target's address
/// space: zero is success, a negated errno is failure.
///
/// The privilege errno maps to `PermissionDenied`; every other failure
/// means the address could not be read, and maps to `UnmappedAddress`.
pub fn classify_remote_read(ret: i64) -> (r: Result<(), RemoteReadError>)
    ensures
        r is Ok <==> ret >= 0,
        ret == -ERRNO_PERMISSION ==> r == Err::<(), RemoteReadError>(
            RemoteReadError::PermissionDenied,
        ),
        ret < 0 && ret != -ERRNO_PERMISSION ==> r == Err::<(), RemoteReadError>(
            RemoteReadError::UnmappedAddress,
        ),
{
    if ret >= 0 {
        Ok(())
    } else if ret == -ERRNO_PERMISSION {
        Err(RemoteReadError::PermissionDenied)
    } else {
        Err(RemoteReadError::UnmappedAddress)
    }
}

/// Decode a wait status into what happened to the target.
///
/// A stop on the trap signal is a syscall boundary; a stop on any other
/// signal is a signal delivery, which the control loop treats like a
/// boundary; an exit is terminal and clean; anything else is a
/// termination by an uncaught signal, reported as a step error.
pub fn classify_wait_status(status: u32) -> (r: Result<StopEvent, StepError>)
    ensures
        wait_says_stopped(status) && wait_stop_signal(status) == TRAP_SIGNAL ==> r == Ok::<
            StopEvent,
            StepError,
        >(StopEvent::SyscallBoundary),
        wait_says_stopped(status) && wait_stop_signal(status) != TRAP_SIGNAL ==> r == Ok::<
            StopEvent,
            StepError,
        >(StopEvent::SignalDelivered),
        !wait_says_stopped(status) && wait_says_exited(status) ==> r == Ok::<
            StopEvent,
            StepError,
        >(StopEvent::Exited),
        !wait_says_stopped(status) && !wait_says_exited(status) ==> r == Err::<
            StopEvent,
            StepError,
        >(StepError::SignalDelivered),
{
    if status & 0xff == 0x7f {
        if (status >> 8) & 0xff == TRAP_SIGNAL {
            Ok(StopEvent::SyscallBoundary)
        } else {
            Ok(StopEvent::SignalDelivered)
        }
    } else if status & 0x7f == 0 {
        Ok(StopEvent::Exited)
    } else {
        Err(StepError::SignalDelivered)
    }
}

} // verus!
