use vstd::prelude::*;

verus! {

/// Every failure a session command can surface.  None of these ends the
/// session: the dispatcher reports them and keeps prompting.
#[derive(Debug, Clone, Copy, PartialEq, Eq)]
pub enum DebugError {
    /// A tracing syscall failed: the process exited, the address is invalid,
    /// or permission was denied.  The current command aborts.
    Trace,
    /// Malformed command text: a missing argument or a malformed number.
    Parse,
    /// An unknown register name, an unknown register number, or a breakpoint
    /// number that is not in the table.
    Lookup,
    /// A breakpoint already exists at the requested location.
    AlreadyExists,
    /// The breakpoint is already enabled; patching again would overwrite the
    /// saved original byte with the trap opcode itself.
    AlreadyEnabled,
    /// A function or line location: resolving those needs a symbol table
    /// this core does not have.
    UnresolvedLocation,
    /// The command is only valid while the traced process is stopped.
    InvalidState,
    /// The traced process has exited; no further commands can reach it.
    SessionEnded,
}

} // verus!
