//! The process controller: owns the traced process handle, the breakpoint
//! table and the session state, sequences stop/continue cycles, and
//! dispatches parsed commands into the register file and the breakpoint
//! table.  No command failure ends the session; every error surfaces as a
//! value the caller reports.

use crate::breakpoint::{Breakpoint, Location};
use crate::errors::DebugError;
use crate::parser::{parse_line, parse_spec, BreakpointCmd, Command, RegisterCmd};
use crate::register::{descriptor, snapshot_read, snapshot_write, Register, RegisterKind};
use crate::trace;
use crate::trace::WaitOutcome;
use vstd::prelude::*;
use vstd::string::StringSliceAdditionalSpecFns;

verus! {

/// Where the traced process stands.  Register and breakpoint operations are
/// valid only while it is `Stopped`; `Exited` is terminal.
#[derive(Debug, Clone, Copy, PartialEq, Eq, Structural)]
pub enum SessionState {
    Stopped,
    Running,
    Exited,
}

/// What a continue reported back once the traced process changed state.
#[derive(Debug, Clone, Copy, PartialEq, Eq, Structural)]
pub enum StopReport {
    /// Stopped by a signal; `rip` is the instruction pointer after the
    /// breakpoint rewind, so at a breakpoint hit it equals the breakpoint
    /// address.
    Stopped { signal: i32, rip: u64 },
    /// Exited normally with the given status code.
    Exited { code: i32 },
    /// Killed by the given signal.
    Signaled { signal: i32 },
}

/// What a dispatched command produced, for the caller to print.
#[derive(Debug, Clone, PartialEq, Eq)]
pub enum CommandOutcome {
    /// The process ran and changed state.
    Resumed(StopReport),
    /// A breakpoint was set and armed; `index` is its table number.
    BreakpointSet { index: usize, address: u64 },
    /// The breakpoint with this table number was disarmed and removed.
    BreakpointRemoved { index: usize },
    /// The table: number, address and armed flag of every breakpoint.
    BreakpointList(Vec<(usize, u64, bool)>),
    /// The value read from a register.
    RegisterValue(u64),
    /// A register write went through.
    RegisterWritten,
    /// The top-level token was not a command.
    UnknownCommand,
    /// The breakpoint sub-operation was not one of the grammar's.
    UnknownBreakpointCommand,
    /// The register sub-operation was not one of the grammar's.
    UnknownRegisterCommand,
}

/// One debugging session: the traced process, its breakpoint table, and the
/// session state.
#[verifier::ext_equal]
#[derive(Debug)]
pub struct Debugger {
    pub pid: i32,
    pub breakpoints: Vec<Breakpoint>,
    pub state: SessionState,
}

impl Debugger {
    /// The table invariant: every breakpoint is address-anchored, belongs to
    /// this session's process, and no two share an address.
    pub open spec fn wf(self) -> bool {
        &&& forall|i: int|
            0 <= i < self.breakpoints@.len() ==> (#[trigger] self.breakpoints@[i]).wf()
                && self.breakpoints@[i].pid == self.pid
        &&& forall|i: int, j: int|
            0 <= i < j < self.breakpoints@.len() ==> self.breakpoints@[i].spec_address()
                != self.breakpoints@[j].spec_address()
    }

    /// The breakpoint addresses, in table order.
    pub open spec fn spec_addresses(self) -> Seq<u64> {
        self.breakpoints@.map_values(|b: Breakpoint| b.spec_address())
    }

    /// Whether some breakpoint in the table is armed at `addr`.
    pub open spec fn has_enabled_at(self, addr: u64) -> bool {
        exists|i: int|
            0 <= i < self.breakpoints@.len() && (#[trigger] self.breakpoints@[i]).enabled
                && self.breakpoints@[i].spec_address() == addr
    }

    /// The session is observably unchanged: same process, same state, same
    /// breakpoint table.
    pub open spec fn same_session(pre: Debugger, post: Debugger) -> bool {
        &&& post.pid == pre.pid
        &&& post.state == pre.state
        &&& post.breakpoints@ == pre.breakpoints@
    }

    /// A fresh session around a process that has just reported its first
    /// trace stop: no breakpoints, stopped.
    pub fn new(pid: i32) -> (r: Debugger)
        ensures
            r.pid == pid,
            r.breakpoints@.len() == 0,
            r.state == SessionState::Stopped,
            r.wf(),
    {
        Debugger { pid, breakpoints: Vec::new(), state: SessionState::Stopped }
    }

    /// The table index of the breakpoint at `addr`, if there is one.
    fn find_breakpoint(&self, addr: u64) -> (r: Option<usize>)
        requires
            self.wf(),
        ensures
            r matches Some(i) ==> i < self.breakpoints@.len() && self.breakpoints@[
                i as int
            ].spec_address() == addr,
            r is None ==> !self.spec_addresses().contains(addr),
    {
        let mut i: usize = 0;
        while i < self.breakpoints.len()
            invariant
                self.wf(),
                i <= self.breakpoints@.len(),
                forall|m: int| 0 <= m < i ==> self.breakpoints@[m].spec_address() != addr,
            decreases self.breakpoints@.len() - i,
        {
            if self.breakpoints[i].address() == addr {
                return Some(i);
            }
            i += 1;
        }
        proof {
            assert forall|k: int| 0 <= k < self.spec_addresses().len() implies self.spec_addresses()[k]
                != addr by {
                assert(self.spec_addresses()[k] == self.breakpoints@[k].spec_address());
            }
        }
        None
    }

    /// The table index of the enabled breakpoint at `addr`, if there is one.
    fn find_enabled_at(&self, addr: u64) -> (r: Option<usize>)
        requires
            self.wf(),
        ensures
            r matches Some(i) ==> i < self.breakpoints@.len() && self.breakpoints@[
                i as int
            ].spec_address() == addr && self.breakpoints@[i as int].enabled,
            r is None ==> !self.has_enabled_at(addr),
    {
        let mut i: usize = 0;
        while i < self.breakpoints.len()
            invariant
                self.wf(),
                i <= self.breakpoints@.len(),
                forall|m: int|
                    0 <= m < i ==> !((#[trigger] self.breakpoints@[m]).enabled
                        && self.breakpoints@[m].spec_address() == addr),
            decreases self.breakpoints@.len() - i,
        {
            if self.breakpoints[i].enabled && self.breakpoints[i].address() == addr {
                return Some(i);
            }
            i += 1;
        }
        None
    }

    /// Record a breakpoint at a location.  Only addresses resolve: function
    /// and line locations need a symbol table this core does not have.  An
    /// address that is already in the table is rejected and the table is
    /// untouched, so the breakpoint already there keeps its state.  The new
    /// breakpoint starts disabled; arming it patches the traced process and
    /// is a separate step.
    pub fn set_breakpoint(&mut self, location: Location) -> (r: Result<usize, DebugError>)
        requires
            old(self).wf(),
        ensures
            final(self).wf(),
            final(self).pid == old(self).pid,
            final(self).state == old(self).state,
            !(location is Address) ==> r == Err::<usize, DebugError>(
                DebugError::UnresolvedLocation,
            ) && Debugger::same_session(*old(self), *final(self)),
            (location matches Location::Address(a) && old(self).spec_addresses().contains(a))
                ==> r == Err::<usize, DebugError>(DebugError::AlreadyExists) && *final(self)
                == *old(self),
            (location matches Location::Address(a) && !old(self).spec_addresses().contains(a)) ==> {
                &&& r matches Ok(i) && i == old(self).breakpoints@.len()
                &&& final(self).breakpoints@ == old(self).breakpoints@.push(
                    Breakpoint {
                        pid: old(self).pid,
                        location,
                        enabled: false,
                        original_byte: 0,
                    },
                )
            },
    {
        let addr = match &location {
            Location::Address(a) => *a,
            _ => {
                return Err(DebugError::UnresolvedLocation);
            },
        };
        match self.find_breakpoint(addr) {
            Some(i) => {
                proof {
                    assert(old(self).spec_addresses()[i as int] == addr);
                    assert(old(self).spec_addresses().contains(addr));
                }
                Err(DebugError::AlreadyExists)
            },
            None => {
                let ix = self.breakpoints.len();
                let bp = Breakpoint::new(self.pid, location);
                self.breakpoints.push(bp);
                proof {
                    assert forall|i: int, j: int|
                        0 <= i < j < self.breakpoints@.len() implies self.breakpoints@[
                        i
                    ].spec_address() != self.breakpoints@[j].spec_address() by {
                        if j == self.breakpoints@.len() - 1 {
                            assert(old(self).spec_addresses()[i] == old(self).breakpoints@[i].spec_address());
                        }
                    }
                }
                Ok(ix)
            },
        }
    }

    /// Arm the breakpoint with table number `index`: patch the trap opcode
    /// into the traced process, saving the overwritten byte.  Arming an
    /// armed breakpoint is rejected (the saved byte would be lost); on a
    /// trace failure nothing changes.
    pub fn enable_breakpoint(&mut self, index: usize) -> (r: Result<(), DebugError>)
        requires
            old(self).wf(),
        ensures
            final(self).wf(),
            final(self).pid == old(self).pid,
            final(self).state == old(self).state,
            index >= old(self).breakpoints@.len() ==> r == Err::<(), DebugError>(DebugError::Lookup)
                && Debugger::same_session(*old(self), *final(self)),
            r is Err ==> Debugger::same_session(*old(self), *final(self)),
            index < old(self).breakpoints@.len() && old(self).breakpoints@[index as int].enabled
                ==> r == Err::<(), DebugError>(DebugError::AlreadyEnabled),
            index < old(self).breakpoints@.len() && !old(self).breakpoints@[index as int].enabled
                && r is Err ==> r == Err::<(), DebugError>(DebugError::Trace),
            r is Ok ==> {
                &&& index < old(self).breakpoints@.len()
                &&& final(self).breakpoints@.len() == old(self).breakpoints@.len()
                &&& forall|j: int|
                    0 <= j < old(self).breakpoints@.len() && j != index ==> final(self).breakpoints@[j] == old(self).breakpoints@[j]
                &&& final(self).breakpoints@[index as int].enabled
                &&& final(self).breakpoints@[index as int].location == old(self).breakpoints@[
                    index as int
                ].location
                &&& final(self).breakpoints@[index as int].pid == old(self).breakpoints@[
                    index as int
                ].pid
            },
    {
        if index >= self.breakpoints.len() {
            return Err(DebugError::Lookup);
        }
        let mut bp = self.breakpoints.remove(index);
        let res = bp.enable();
        self.breakpoints.insert(index, bp);
        proof {
            if res is Err {
                assert(self.breakpoints@ =~= old(self).breakpoints@);
            }
            assert forall|i: int, j: int|
                0 <= i < j < self.breakpoints@.len() implies self.breakpoints@[i].spec_address()
                != self.breakpoints@[j].spec_address() by {
                assert(old(self).breakpoints@[i].spec_address() != old(self).breakpoints@[j].spec_address());
            }
        }
        res
    }

    /// Disarm the breakpoint with table number `index`: restore the saved
    /// original byte in the traced process.  A disarmed breakpoint is left
    /// alone; on a trace failure nothing changes.
    pub fn disable_breakpoint(&mut self, index: usize) -> (r: Result<(), DebugError>)
        requires
            old(self).wf(),
        ensures
            final(self).wf(),
            final(self).pid == old(self).pid,
            final(self).state == old(self).state,
            index >= old(self).breakpoints@.len() ==> r == Err::<(), DebugError>(DebugError::Lookup)
                && Debugger::same_session(*old(self), *final(self)),
            r is Err ==> Debugger::same_session(*old(self), *final(self)),
            index < old(self).breakpoints@.len() && !old(self).breakpoints@[index as int].enabled
                ==> r is Ok && Debugger::same_session(*old(self), *final(self)),
            index < old(self).breakpoints@.len() && r is Err ==> r == Err::<(), DebugError>(
                DebugError::Trace,
            ),
            r is Ok ==> {
                &&& index < old(self).breakpoints@.len()
                &&& final(self).breakpoints@.len() == old(self).breakpoints@.len()
                &&& forall|j: int|
                    0 <= j < old(self).breakpoints@.len() && j != index ==> final(self).breakpoints@[j] == old(self).breakpoints@[j]
                &&& !final(self).breakpoints@[index as int].enabled
                &&& final(self).breakpoints@[index as int].original_byte == 0
                &&& final(self).breakpoints@[index as int].location == old(self).breakpoints@[
                    index as int
                ].location
                &&& final(self).breakpoints@[index as int].pid == old(self).breakpoints@[
                    index as int
                ].pid
            },
    {
        if index >= self.breakpoints.len() {
            return Err(DebugError::Lookup);
        }
        let mut bp = self.breakpoints.remove(index);
        let res = bp.disable();
        self.breakpoints.insert(index, bp);
        proof {
            if res is Err || !old(self).breakpoints@[index as int].enabled {
                assert(self.breakpoints@ =~= old(self).breakpoints@);
            }
            assert forall|i: int, j: int|
                0 <= i < j < self.breakpoints@.len() implies self.breakpoints@[i].spec_address()
                != self.breakpoints@[j].spec_address() by {
                assert(old(self).breakpoints@[i].spec_address() != old(self).breakpoints@[j].spec_address());
            }
        }
        res
    }

    /// Disarm and remove the breakpoint with table number `index`.  The byte
    /// it saved is restored to the traced process before the table forgets
    /// it.  On failure the table is unchanged; a disarmed breakpoint is
    /// always removable.
    pub fn unset_breakpoint(&mut self, index: usize) -> (r: Result<(), DebugError>)
        requires
            old(self).wf(),
        ensures
            final(self).wf(),
            final(self).pid == old(self).pid,
            final(self).state == old(self).state,
            index >= old(self).breakpoints@.len() ==> r == Err::<(), DebugError>(DebugError::Lookup)
                && Debugger::same_session(*old(self), *final(self)),
            r is Err ==> Debugger::same_session(*old(self), *final(self)),
            index < old(self).breakpoints@.len() && r is Err ==> r == Err::<(), DebugError>(
                DebugError::Trace,
            ),
            index < old(self).breakpoints@.len() && !old(self).breakpoints@[index as int].enabled
                ==> r is Ok,
            r is Ok ==> index < old(self).breakpoints@.len() && final(self).breakpoints@ == old(self).breakpoints@.remove(index as int),
    {
        if index >= self.breakpoints.len() {
            return Err(DebugError::Lookup);
        }
        let mut bp = self.breakpoints.remove(index);
        match bp.disable() {
            Ok(()) => {
                proof {
                    assert forall|i: int, j: int|
                        0 <= i < j < self.breakpoints@.len() implies self.breakpoints@[
                        i
                    ].spec_address() != self.breakpoints@[j].spec_address() by {
                        let oi = if i < index as int {
                            i
                        } else {
                            i + 1
                        };
                        let oj = if j < index as int {
                            j
                        } else {
                            j + 1
                        };
                        assert(old(self).breakpoints@[oi].spec_address() != old(self).breakpoints@[oj].spec_address());
                    }
                }
                Ok(())
            },
            Err(e) => {
                self.breakpoints.insert(index, bp);
                proof {
                    assert(self.breakpoints@ =~= old(self).breakpoints@);
                }
                Err(e)
            },
        }
    }

    /// The table: number, address and armed flag of every breakpoint, in
    /// table order.
    pub fn list_breakpoints(&self) -> (r: Vec<(usize, u64, bool)>)
        requires
            self.wf(),
        ensures
            r@.len() == self.breakpoints@.len(),
            forall|i: int|
                0 <= i < r@.len() ==> r@[i] == (
                    i as usize,
                    self.breakpoints@[i].spec_address(),
                    self.breakpoints@[i].enabled,
                ),
    {
        let mut out: Vec<(usize, u64, bool)> = Vec::new();
        let mut i: usize = 0;
        while i < self.breakpoints.len()
            invariant
                self.wf(),
                i <= self.breakpoints@.len(),
                out@.len() == i,
                forall|m: int|
                    0 <= m < i ==> out@[m] == (
                        m as usize,
                        self.breakpoints@[m].spec_address(),
                        self.breakpoints@[m].enabled,
                    ),
            decreases self.breakpoints@.len() - i,
        {
            let bp = &self.breakpoints[i];
            out.push((i, bp.address(), bp.enabled));
            i += 1;
        }
        out
    }

    /// Where the instruction pointer must be rewound to after a trace stop:
    /// if the byte just executed was the trap of an armed breakpoint (the
    /// trap retired, so the stop reports the address one past it), the
    /// breakpoint's own address; otherwise nowhere.
    pub fn rewind_target(&self, rip: u64) -> (r: Option<u64>)
        requires
            self.wf(),
        ensures
            r == if rip >= 1 && self.has_enabled_at((rip - 1) as u64) {
                Some((rip - 1) as u64)
            } else {
                None::<u64>
            },
    {
        if rip >= 1 {
            match self.find_enabled_at(rip - 1) {
                Some(i) => {
                    proof {
                        assert(self.has_enabled_at((rip - 1) as u64));
                    }
                    Some(rip - 1)
                },
                None => None,
            }
        } else {
            None
        }
    }

    /// If the process is stopped exactly at the address of an enabled
    /// breakpoint (its trap has retired and the instruction pointer was
    /// rewound to the breakpoint address), the original instruction must be
    /// executed before a real continue: disarm that one breakpoint, let the
    /// process step one instruction, re-arm it.  Without this the trap
    /// either refires in place or the original instruction is lost.
    /// Returns what the step's wait reported if the process left the
    /// stopped state during the step.
    fn step_over_breakpoint(&mut self) -> (r: Result<Option<WaitOutcome>, DebugError>)
        requires
            old(self).wf(),
        ensures
            final(self).wf(),
            final(self).pid == old(self).pid,
            final(self).state == old(self).state,
            final(self).spec_addresses() == old(self).spec_addresses(),
            r matches Err(e) ==> e == DebugError::Trace,
            r matches Ok(Some(w)) ==> !(w is Stopped),
    {
        let regs = match trace::get_regs(self.pid) {
            Ok(regs) => regs,
            Err(e) => return Err(e),
        };
        let rip = snapshot_read(&regs, RegisterKind::Rip);
        let idx = match self.find_enabled_at(rip) {
            Some(i) => i,
            None => return Ok(None),
        };
        let mut bp = self.breakpoints.remove(idx);
        match bp.disable() {
            Ok(()) => (),
            Err(e) => {
                self.breakpoints.insert(idx, bp);
                proof {
                    lemma_reinsert(old(self).breakpoints@, self.breakpoints@, idx as int, self.pid);
                }
                return Err(e);
            },
        }
        match trace::step(self.pid) {
            Ok(()) => (),
            Err(e) => {
                let _ = bp.enable();
                self.breakpoints.insert(idx, bp);
                proof {
                    lemma_reinsert(old(self).breakpoints@, self.breakpoints@, idx as int, self.pid);
                }
                return Err(e);
            },
        }
        let w = match trace::wait(self.pid) {
            Ok(w) => w,
            Err(e) => {
                let _ = bp.enable();
                self.breakpoints.insert(idx, bp);
                proof {
                    lemma_reinsert(old(self).breakpoints@, self.breakpoints@, idx as int, self.pid);
                }
                return Err(e);
            },
        };
        match w {
            WaitOutcome::Stopped(_) => {
                let res = bp.enable();
                self.breakpoints.insert(idx, bp);
                proof {
                    lemma_reinsert(old(self).breakpoints@, self.breakpoints@, idx as int, self.pid);
                }
                match res {
                    Ok(()) => Ok(None),
                    Err(e) => Err(e),
                }
            },
            _ => {
                // The process exited or was killed during the single step;
                // there is nothing left to re-arm in.
                self.breakpoints.insert(idx, bp);
                proof {
                    lemma_reinsert(old(self).breakpoints@, self.breakpoints@, idx as int, self.pid);
                }
                Ok(Some(w))
            },
        }
    }

    /// Resume the traced process: run the breakpoint step-over protocol if
    /// needed, issue the real continue, and block until the process reports
    /// its next state.  If it stopped just past an enabled breakpoint's trap
    /// the instruction pointer is rewound onto the breakpoint address, so
    /// the report shows the breakpoint address itself.
    pub fn continue_execution(&mut self) -> (r: Result<StopReport, DebugError>)
        requires
            old(self).wf(),
        ensures
            final(self).wf(),
            final(self).pid == old(self).pid,
            final(self).spec_addresses() == old(self).spec_addresses(),
            old(self).state == SessionState::Exited ==> r == Err::<StopReport, DebugError>(
                DebugError::SessionEnded,
            ) && Debugger::same_session(*old(self), *final(self)),
            old(self).state == SessionState::Running ==> r == Err::<StopReport, DebugError>(
                DebugError::InvalidState,
            ) && Debugger::same_session(*old(self), *final(self)),
            old(self).state == SessionState::Stopped ==> match r {
                Ok(rep) => match rep {
                    StopReport::Exited { .. } => final(self).state == SessionState::Exited,
                    StopReport::Signaled { .. } => final(self).state == SessionState::Exited,
                    StopReport::Stopped { .. } => final(self).state == SessionState::Stopped,
                },
                Err(e) => e == DebugError::Trace && final(self).state == SessionState::Stopped,
            },
    {
        match self.state {
            SessionState::Exited => return Err(DebugError::SessionEnded),
            SessionState::Running => return Err(DebugError::InvalidState),
            SessionState::Stopped => (),
        }
        match self.step_over_breakpoint() {
            Ok(None) => (),
            Ok(Some(w)) => match w {
                WaitOutcome::Exited(code) => {
                    self.state = SessionState::Exited;
                    return Ok(StopReport::Exited { code });
                },
                WaitOutcome::Signaled(signal) => {
                    self.state = SessionState::Exited;
                    return Ok(StopReport::Signaled { signal });
                },
                WaitOutcome::Stopped(_) => unreached(),
                WaitOutcome::Other => return Err(DebugError::Trace),
            },
            Err(e) => return Err(e),
        }
        match trace::cont(self.pid) {
            Ok(()) => (),
            Err(e) => return Err(e),
        }
        self.state = SessionState::Running;
        let w = match trace::wait(self.pid) {
            Ok(w) => w,
            Err(e) => {
                self.state = SessionState::Stopped;
                return Err(e);
            },
        };
        match w {
            WaitOutcome::Exited(code) => {
                self.state = SessionState::Exited;
                Ok(StopReport::Exited { code })
            },
            WaitOutcome::Signaled(signal) => {
                self.state = SessionState::Exited;
                Ok(StopReport::Signaled { signal })
            },
            WaitOutcome::Stopped(signal) => {
                self.state = SessionState::Stopped;
                let mut regs = match trace::get_regs(self.pid) {
                    Ok(regs) => regs,
                    Err(e) => return Err(e),
                };
                let rip = snapshot_read(&regs, RegisterKind::Rip);
                let report_rip = match self.rewind_target(rip) {
                    Some(target) => {
                        snapshot_write(&mut regs, RegisterKind::Rip, target);
                        match trace::set_regs(self.pid, &regs) {
                            Ok(()) => (),
                            Err(e) => return Err(e),
                        }
                        target
                    },
                    None => rip,
                };
                Ok(StopReport::Stopped { signal, rip: report_rip })
            },
            WaitOutcome::Other => {
                self.state = SessionState::Stopped;
                Err(DebugError::Trace)
            },
        }
    }

    /// Route a parsed command to the register file, the breakpoint table or
    /// the continue protocol.  Unknown commands report themselves; every
    /// operation demands a stopped process; no failure ends the session.
    pub fn dispatch(&mut self, cmd: Command) -> (r: Result<CommandOutcome, DebugError>)
        requires
            old(self).wf(),
        ensures
            final(self).wf(),
            dispatch_post(*old(self), *final(self), cmd, r),
    {
        match cmd {
            Command::Unknown => Ok(CommandOutcome::UnknownCommand),
            Command::Breakpoint(BreakpointCmd::Unknown) => Ok(
                CommandOutcome::UnknownBreakpointCommand,
            ),
            Command::Register(RegisterCmd::Unknown) => Ok(CommandOutcome::UnknownRegisterCommand),
            Command::Continue => match self.continue_execution() {
                Ok(rep) => Ok(CommandOutcome::Resumed(rep)),
                Err(e) => Err(e),
            },
            Command::Breakpoint(BreakpointCmd::List) => {
                match self.state_guard() {
                    Ok(()) => (),
                    Err(e) => return Err(e),
                }
                Ok(CommandOutcome::BreakpointList(self.list_breakpoints()))
            },
            Command::Breakpoint(BreakpointCmd::SetAt(loc)) => {
                match self.state_guard() {
                    Ok(()) => (),
                    Err(e) => return Err(e),
                }
                let ix = match self.set_breakpoint(loc) {
                    Ok(ix) => ix,
                    Err(e) => return Err(e),
                };
                match self.enable_breakpoint(ix) {
                    Ok(()) => {
                        proof {
                            assert(self.breakpoints@.subrange(0, ix as int) =~= old(
                                self,
                            ).breakpoints@);
                            assert(self.breakpoints@.last() == self.breakpoints@[ix as int]);
                        }
                        let address = self.breakpoints[ix].address();
                        Ok(CommandOutcome::BreakpointSet { index: ix, address })
                    },
                    Err(e) => {
                        // The fresh breakpoint could not be armed: take it
                        // back out, leaving the table as it was.
                        let ghost pre_table = self.breakpoints@;
                        proof {
                            assert(ix as int == old(self).breakpoints@.len());
                            assert(pre_table[ix as int].enabled == false);
                        }
                        let rollback = self.unset_breakpoint(ix);
                        proof {
                            assert(rollback is Ok);
                            assert(self.breakpoints@ == pre_table.remove(ix as int));
                            assert(self.breakpoints@ =~= old(self).breakpoints@);
                        }
                        Err(e)
                    },
                }
            },
            Command::Breakpoint(BreakpointCmd::Unset(n)) => {
                match self.state_guard() {
                    Ok(()) => (),
                    Err(e) => return Err(e),
                }
                if n >= self.breakpoints.len() as u64 {
                    return Err(DebugError::Lookup);
                }
                let ix = n as usize;
                match self.unset_breakpoint(ix) {
                    Ok(()) => Ok(CommandOutcome::BreakpointRemoved { index: ix }),
                    Err(e) => Err(e),
                }
            },
            Command::Register(RegisterCmd::Read(kind)) => {
                match self.state_guard() {
                    Ok(()) => (),
                    Err(e) => return Err(e),
                }
                let reg = Register { kind, descriptor: descriptor(kind) };
                match reg.read(self.pid) {
                    Ok(v) => Ok(CommandOutcome::RegisterValue(v)),
                    Err(e) => Err(e),
                }
            },
            Command::Register(RegisterCmd::Write(kind, value)) => {
                match self.state_guard() {
                    Ok(()) => (),
                    Err(e) => return Err(e),
                }
                let reg = Register { kind, descriptor: descriptor(kind) };
                match reg.write(self.pid, value) {
                    Ok(()) => Ok(CommandOutcome::RegisterWritten),
                    Err(e) => Err(e),
                }
            },
        }
    }

    /// Reject operations while the process is not stopped: the register
    /// file and the breakpoint table may only be touched in a trace stop.
    fn state_guard(&self) -> (r: Result<(), DebugError>)
        ensures
            self.state == SessionState::Exited ==> r == Err::<(), DebugError>(
                DebugError::SessionEnded,
            ),
            self.state == SessionState::Running ==> r == Err::<(), DebugError>(
                DebugError::InvalidState,
            ),
            self.state == SessionState::Stopped ==> r is Ok,
    {
        match self.state {
            SessionState::Stopped => Ok(()),
            SessionState::Running => Err(DebugError::InvalidState),
            SessionState::Exited => Err(DebugError::SessionEnded),
        }
    }

    /// Parse one line of command text and dispatch it.
    pub fn handle_input(&mut self, line: &str) -> (r: Result<CommandOutcome, DebugError>)
        requires
            old(self).wf(),
        ensures
            final(self).wf(),
            match parse_spec(line.spec_bytes()) {
                Ok(cmd) => dispatch_post(*old(self), *final(self), cmd, r),
                Err(e) => r == Err::<CommandOutcome, DebugError>(e) && Debugger::same_session(
                    *old(self),
                    *final(self),
                ),
            },
    {
        match parse_line(line) {
            Ok(cmd) => self.dispatch(cmd),
            Err(e) => Err(e),
        }
    }
}

/// Reinserting a breakpoint that kept its location and process at the table
/// slot it was taken from preserves the table's addresses and invariant.
proof fn lemma_reinsert(pre: Seq<Breakpoint>, post: Seq<Breakpoint>, idx: int, pid: i32)
    requires
        0 <= idx < pre.len(),
        post.len() == pre.len(),
        forall|k: int| 0 <= k < pre.len() && k != idx ==> post[k] == pre[k],
        post[idx].location == pre[idx].location,
        post[idx].pid == pre[idx].pid,
        post[idx].wf(),
        forall|k: int| 0 <= k < pre.len() ==> (#[trigger] pre[k]).wf() && pre[k].pid == pid,
        forall|i: int, j: int|
            0 <= i < j < pre.len() ==> pre[i].spec_address() != pre[j].spec_address(),
    ensures
        forall|k: int| 0 <= k < post.len() ==> (#[trigger] post[k]).wf() && post[k].pid == pid,
        forall|i: int, j: int|
            0 <= i < j < post.len() ==> post[i].spec_address() != post[j].spec_address(),
        post.map_values(|b: Breakpoint| b.spec_address()) == pre.map_values(
            |b: Breakpoint| b.spec_address(),
        ),
{
    assert forall|k: int| 0 <= k < post.len() implies (#[trigger] post[k]).wf() && post[k].pid
        == pid by {
        assert(pre[k].wf() && pre[k].pid == pid);
    }
    assert forall|i: int, j: int|
        0 <= i < j < post.len() implies post[i].spec_address() != post[j].spec_address() by {
        assert(pre[i].spec_address() != pre[j].spec_address());
        assert(post[i].spec_address() == pre[i].spec_address());
        assert(post[j].spec_address() == pre[j].spec_address());
    }
    assert(post.map_values(|b: Breakpoint| b.spec_address()) =~= pre.map_values(
        |b: Breakpoint| b.spec_address(),
    ));
}

/// Everything `dispatch` promises, command by command, relating the session
/// before and after to the returned outcome.
pub open spec fn dispatch_post(
    pre: Debugger,
    post: Debugger,
    cmd: Command,
    r: Result<CommandOutcome, DebugError>,
) -> bool {
    match cmd {
        Command::Unknown => Debugger::same_session(pre, post) && r == Ok::<
            CommandOutcome,
            DebugError,
        >(CommandOutcome::UnknownCommand),
        Command::Breakpoint(BreakpointCmd::Unknown) => Debugger::same_session(pre, post) && r
            == Ok::<CommandOutcome, DebugError>(CommandOutcome::UnknownBreakpointCommand),
        Command::Register(RegisterCmd::Unknown) => Debugger::same_session(pre, post) && r == Ok::<
            CommandOutcome,
            DebugError,
        >(CommandOutcome::UnknownRegisterCommand),
        Command::Continue => {
            &&& post.pid == pre.pid
            &&& post.spec_addresses() == pre.spec_addresses()
            &&& pre.state == SessionState::Exited ==> r == Err::<CommandOutcome, DebugError>(
                DebugError::SessionEnded,
            ) && Debugger::same_session(pre, post)
            &&& pre.state == SessionState::Running ==> r == Err::<CommandOutcome, DebugError>(
                DebugError::InvalidState,
            ) && Debugger::same_session(pre, post)
            &&& pre.state == SessionState::Stopped ==> match r {
                Ok(o) => match o {
                    CommandOutcome::Resumed(rep) => match rep {
                        StopReport::Exited { .. } => post.state == SessionState::Exited,
                        StopReport::Signaled { .. } => post.state == SessionState::Exited,
                        StopReport::Stopped { .. } => post.state == SessionState::Stopped,
                    },
                    _ => false,
                },
                Err(e) => e == DebugError::Trace && post.state == SessionState::Stopped,
            }
        },
        _ => {
            if pre.state == SessionState::Exited {
                Debugger::same_session(pre, post) && r == Err::<CommandOutcome, DebugError>(
                    DebugError::SessionEnded,
                )
            } else if pre.state == SessionState::Running {
                Debugger::same_session(pre, post) && r == Err::<CommandOutcome, DebugError>(
                    DebugError::InvalidState,
                )
            } else {
                dispatch_stopped_post(pre, post, cmd, r)
            }
        },
    }
}

/// `dispatch_post` for the operations that demand a stopped process, with
/// the process stopped.
pub open spec fn dispatch_stopped_post(
    pre: Debugger,
    post: Debugger,
    cmd: Command,
    r: Result<CommandOutcome, DebugError>,
) -> bool {
    &&& post.pid == pre.pid
    &&& post.state == pre.state
    &&& match cmd {
        Command::Breakpoint(BreakpointCmd::List) => {
            &&& Debugger::same_session(pre, post)
            &&& match r {
                Ok(o) => o matches CommandOutcome::BreakpointList(v) && v@.len()
                    == pre.breakpoints@.len() && (forall|i: int|
                    0 <= i < v@.len() ==> v@[i] == (
                        i as usize,
                        pre.breakpoints@[i].spec_address(),
                        pre.breakpoints@[i].enabled,
                    )),
                Err(_) => false,
            }
        },
        Command::Breakpoint(BreakpointCmd::SetAt(loc)) => {
            &&& !(loc is Address) ==> r == Err::<CommandOutcome, DebugError>(
                DebugError::UnresolvedLocation,
            ) && Debugger::same_session(pre, post)
            &&& (loc matches Location::Address(a) && pre.spec_addresses().contains(a)) ==> r
                == Err::<CommandOutcome, DebugError>(DebugError::AlreadyExists)
                && Debugger::same_session(pre, post)
            &&& loc matches Location::Address(a) ==> pre.spec_addresses().contains(a) || match r {
                Ok(o) => {
                    &&& o == (CommandOutcome::BreakpointSet {
                        index: pre.breakpoints@.len() as usize,
                        address: a,
                    })
                    &&& post.breakpoints@.len() == pre.breakpoints@.len() + 1
                    &&& post.breakpoints@.subrange(0, pre.breakpoints@.len() as int)
                        == pre.breakpoints@
                    &&& post.breakpoints@.last().spec_address() == a
                    &&& post.breakpoints@.last().enabled
                },
                Err(e) => e == DebugError::Trace && Debugger::same_session(pre, post),
            }
        },
        Command::Breakpoint(BreakpointCmd::Unset(n)) => {
            &&& n >= pre.breakpoints@.len() ==> r == Err::<CommandOutcome, DebugError>(
                DebugError::Lookup,
            ) && Debugger::same_session(pre, post)
            &&& n < pre.breakpoints@.len() ==> match r {
                Ok(o) => o == (CommandOutcome::BreakpointRemoved { index: n as usize })
                    && post.breakpoints@ == pre.breakpoints@.remove(n as int),
                Err(e) => e == DebugError::Trace && Debugger::same_session(pre, post),
            }
        },
        Command::Register(RegisterCmd::Read(_)) => {
            &&& Debugger::same_session(pre, post)
            &&& match r {
                Ok(o) => o is RegisterValue,
                Err(e) => e == DebugError::Trace,
            }
        },
        Command::Register(RegisterCmd::Write(_, _)) => {
            &&& Debugger::same_session(pre, post)
            &&& match r {
                Ok(o) => o == CommandOutcome::RegisterWritten,
                Err(e) => e == DebugError::Trace,
            }
        },
        _ => true,
    }
}

} // verus!
