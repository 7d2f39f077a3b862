//! The crate's only doorway to the tracing syscalls.  Each function here
//! wraps one call of the `nix` crate (or declares one of its types); nothing
//! is promised of a result that depends on the traced process, so every
//! caller must state what holds whatever comes back.

use crate::errors::DebugError;
use vstd::prelude::*;

verus! {

/// Relies on libc::user_regs_struct: the register image that the snapshot
/// syscalls fill and commit, a plain struct of public machine-word fields,
/// one per register.  Declaring it lets verified code project and update
/// those fields directly.
#[verifier::external_type_specification]
pub struct ExUserRegs(libc::user_regs_struct);

/// What a blocking wait on the traced process reported, reduced to the three
/// transitions the session state machine distinguishes.
#[derive(Debug, Clone, Copy, PartialEq, Eq)]
pub enum WaitOutcome {
    /// The process exited with the given status code.
    Exited(i32),
    /// The process was killed by the given signal.
    Signaled(i32),
    /// The process is alive and stopped by the given signal.
    Stopped(i32),
    /// A report this synchronous design never requests (resume with
    /// `SIGCONT`, a no-hang poll); treated as a trace failure by callers.
    Other,
}

/// Relies on nix::sys::ptrace::read: one word of the traced process's memory.
#[verifier::external_body]
pub(crate) fn peek_word(pid: i32, addr: u64) -> (r: Result<u64, DebugError>)
    ensures
        r matches Err(e) ==> e == DebugError::Trace,
{
    match nix::sys::ptrace::read(
        nix::unistd::Pid::from_raw(pid),
        addr as nix::sys::ptrace::AddressType,
    ) {
        Ok(w) => Ok(w as u64),
        Err(_) => Err(DebugError::Trace),
    }
}

/// Relies on nix::sys::ptrace::write: one word into the traced process's memory.
#[verifier::external_body]
pub(crate) fn poke_word(pid: i32, addr: u64, word: u64) -> (r: Result<(), DebugError>)
    ensures
        r matches Err(e) ==> e == DebugError::Trace,
{
    match nix::sys::ptrace::write(
        nix::unistd::Pid::from_raw(pid),
        addr as nix::sys::ptrace::AddressType,
        word as libc::c_long,
    ) {
        Ok(()) => Ok(()),
        Err(_) => Err(DebugError::Trace),
    }
}

/// Relies on nix::sys::ptrace::getregs: the whole register snapshot of the
/// traced process in one syscall.
#[verifier::external_body]
pub(crate) fn get_regs(pid: i32) -> (r: Result<libc::user_regs_struct, DebugError>)
    ensures
        r matches Err(e) ==> e == DebugError::Trace,
{
    match nix::sys::ptrace::getregs(nix::unistd::Pid::from_raw(pid)) {
        Ok(regs) => Ok(regs),
        Err(_) => Err(DebugError::Trace),
    }
}

/// Relies on nix::sys::ptrace::setregs: commits the whole register snapshot
/// back to the traced process in one syscall.
#[verifier::external_body]
pub(crate) fn set_regs(pid: i32, regs: &libc::user_regs_struct) -> (r: Result<(), DebugError>)
    ensures
        r matches Err(e) ==> e == DebugError::Trace,
{
    match nix::sys::ptrace::setregs(nix::unistd::Pid::from_raw(pid), *regs) {
        Ok(()) => Ok(()),
        Err(_) => Err(DebugError::Trace),
    }
}

/// Relies on nix::sys::ptrace::cont: resumes the traced process.
#[verifier::external_body]
pub(crate) fn cont(pid: i32) -> (r: Result<(), DebugError>)
    ensures
        r matches Err(e) ==> e == DebugError::Trace,
{
    match nix::sys::ptrace::cont(nix::unistd::Pid::from_raw(pid), None) {
        Ok(()) => Ok(()),
        Err(_) => Err(DebugError::Trace),
    }
}

/// Relies on nix::sys::ptrace::step: lets the traced process execute exactly
/// one instruction before it stops again.
#[verifier::external_body]
pub(crate) fn step(pid: i32) -> (r: Result<(), DebugError>)
    ensures
        r matches Err(e) ==> e == DebugError::Trace,
{
    match nix::sys::ptrace::step(nix::unistd::Pid::from_raw(pid), None) {
        Ok(()) => Ok(()),
        Err(_) => Err(DebugError::Trace),
    }
}

/// Relies on nix::sys::wait::waitpid: blocks until the traced process
/// reports its next state transition.
#[verifier::external_body]
pub(crate) fn wait(pid: i32) -> (r: Result<WaitOutcome, DebugError>)
    ensures
        r matches Err(e) ==> e == DebugError::Trace,
{
    match nix::sys::wait::waitpid(nix::unistd::Pid::from_raw(pid), None) {
        Ok(nix::sys::wait::WaitStatus::Exited(_, code)) => Ok(WaitOutcome::Exited(code)),
        Ok(nix::sys::wait::WaitStatus::Signaled(_, sig, _)) => Ok(WaitOutcome::Signaled(sig as i32)),
        Ok(nix::sys::wait::WaitStatus::Stopped(_, sig)) => Ok(WaitOutcome::Stopped(sig as i32)),
        Ok(nix::sys::wait::WaitStatus::PtraceEvent(_, sig, _)) => Ok(WaitOutcome::Stopped(sig as i32)),
        Ok(_) => Ok(WaitOutcome::Other),
        Err(_) => Err(DebugError::Trace),
    }
}

} // verus!
