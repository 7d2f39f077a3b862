use dbgcore::breakpoint::{Breakpoint, Location};
use dbgcore::debugger::{CommandOutcome, Debugger, SessionState};
use dbgcore::errors::DebugError;

#[test]
fn new_session_is_stopped_and_empty() {
    let d = Debugger::new(42);
    assert_eq!(d.pid, 42);
    assert_eq!(d.state, SessionState::Stopped);
    assert!(d.list_breakpoints().is_empty());
}

#[test]
fn setting_the_same_location_twice_is_rejected() {
    let mut d = Debugger::new(1);
    assert_eq!(d.set_breakpoint(Location::Address(0x401000)), Ok(0));
    // The duplicate is rejected with AlreadyExists ...
    assert_eq!(
        d.set_breakpoint(Location::Address(0x401000)),
        Err(DebugError::AlreadyExists)
    );
    // ... and the first breakpoint's entry is untouched.
    let list = d.list_breakpoints();
    assert_eq!(list, vec![(0, 0x401000, false)]);
}

#[test]
fn unresolved_locations_are_rejected() {
    let mut d = Debugger::new(1);
    assert_eq!(
        d.set_breakpoint(Location::Function("main".to_string())),
        Err(DebugError::UnresolvedLocation)
    );
    assert_eq!(
        d.set_breakpoint(Location::Line("main.c".to_string(), 12)),
        Err(DebugError::UnresolvedLocation)
    );
    assert!(d.list_breakpoints().is_empty());
}

#[test]
fn unset_removes_and_renumbers() {
    let mut d = Debugger::new(1);
    assert_eq!(d.set_breakpoint(Location::Address(0x10)), Ok(0));
    assert_eq!(d.set_breakpoint(Location::Address(0x20)), Ok(1));
    assert_eq!(d.set_breakpoint(Location::Address(0x30)), Ok(2));
    assert_eq!(d.unset_breakpoint(1), Ok(()));
    assert_eq!(
        d.list_breakpoints(),
        vec![(0, 0x10, false), (1, 0x30, false)]
    );
    // The freed address can be set again.
    assert_eq!(d.set_breakpoint(Location::Address(0x20)), Ok(2));
}

#[test]
fn table_lookups_out_of_range_fail() {
    let mut d = Debugger::new(1);
    assert_eq!(d.unset_breakpoint(0), Err(DebugError::Lookup));
    assert_eq!(d.enable_breakpoint(3), Err(DebugError::Lookup));
    assert_eq!(d.disable_breakpoint(0), Err(DebugError::Lookup));
}

#[test]
fn arming_against_dead_process_fails_and_rolls_back() {
    // pid -1 cannot be traced: the arm step fails with a trace error and
    // the dispatcher takes the half-set breakpoint back out.
    let mut d = Debugger::new(-1);
    assert_eq!(d.handle_input("break 0x1000"), Err(DebugError::Trace));
    assert!(d.list_breakpoints().is_empty());
    assert_eq!(d.state, SessionState::Stopped);
}

#[test]
fn disarming_a_disarmed_breakpoint_needs_no_process() {
    let mut d = Debugger::new(-1);
    assert_eq!(d.set_breakpoint(Location::Address(0x1000)), Ok(0));
    assert_eq!(d.disable_breakpoint(0), Ok(()));
    assert_eq!(d.unset_breakpoint(0), Ok(()));
}

#[test]
fn unknown_commands_leave_the_session_alive() {
    let mut d = Debugger::new(1);
    assert_eq!(d.handle_input("xyz"), Ok(CommandOutcome::UnknownCommand));
    assert_eq!(
        d.handle_input("breakpoint frobnicate"),
        Ok(CommandOutcome::UnknownBreakpointCommand)
    );
    assert_eq!(
        d.handle_input("register frobnicate"),
        Ok(CommandOutcome::UnknownRegisterCommand)
    );
    // The session still accepts commands afterwards.
    assert_eq!(d.set_breakpoint(Location::Address(0x99)), Ok(0));
    assert_eq!(d.state, SessionState::Stopped);
}

#[test]
fn parse_errors_leave_the_session_unchanged() {
    let mut d = Debugger::new(1);
    assert_eq!(d.handle_input("break oops"), Err(DebugError::Parse));
    assert_eq!(d.handle_input("register write rbx"), Err(DebugError::Parse));
    assert!(d.list_breakpoints().is_empty());
    assert_eq!(d.state, SessionState::Stopped);
}

#[test]
fn operations_against_an_exited_process_fail_with_session_ended() {
    let mut d = Debugger::new(1);
    d.state = SessionState::Exited;
    assert_eq!(d.handle_input("c"), Err(DebugError::SessionEnded));
    assert_eq!(
        d.handle_input("break 0x1000"),
        Err(DebugError::SessionEnded)
    );
    assert_eq!(
        d.handle_input("register read rax"),
        Err(DebugError::SessionEnded)
    );
    assert_eq!(d.handle_input("breakpoint ls"), Err(DebugError::SessionEnded));
}

#[test]
fn operations_against_a_running_process_fail_with_invalid_state() {
    let mut d = Debugger::new(1);
    d.state = SessionState::Running;
    assert_eq!(d.handle_input("c"), Err(DebugError::InvalidState));
    assert_eq!(
        d.handle_input("register write rax 5"),
        Err(DebugError::InvalidState)
    );
    assert_eq!(
        d.handle_input("breakpoint unset 0"),
        Err(DebugError::InvalidState)
    );
}

#[test]
fn list_reports_numbers_addresses_and_armed_flags() {
    let mut d = Debugger::new(1);
    assert_eq!(d.set_breakpoint(Location::Address(0xa)), Ok(0));
    assert_eq!(d.set_breakpoint(Location::Address(0xb)), Ok(1));
    match d.handle_input("breakpoint ls") {
        Ok(CommandOutcome::BreakpointList(v)) => {
            assert_eq!(v, vec![(0, 0xa, false), (1, 0xb, false)]);
        }
        other => panic!("unexpected outcome: {other:?}"),
    }
}

#[test]
fn register_access_against_dead_process_fails_with_trace_error() {
    let mut d = Debugger::new(-1);
    assert_eq!(d.handle_input("register read rax"), Err(DebugError::Trace));
    assert_eq!(
        d.handle_input("register write rax 5"),
        Err(DebugError::Trace)
    );
    assert_eq!(d.state, SessionState::Stopped);
}

#[test]
fn continue_against_dead_process_fails_and_stays_stopped() {
    let mut d = Debugger::new(-1);
    assert_eq!(d.handle_input("c"), Err(DebugError::Trace));
    assert_eq!(d.state, SessionState::Stopped);
}

#[test]
fn rewind_targets_only_armed_breakpoints() {
    let mut d = Debugger::new(1);
    // An armed breakpoint at 0x1000 and a disarmed one at 0x2000.
    d.breakpoints.push(Breakpoint {
        pid: 1,
        location: Location::Address(0x1000),
        enabled: true,
        original_byte: 0x41,
    });
    d.breakpoints.push(Breakpoint {
        pid: 1,
        location: Location::Address(0x2000),
        enabled: false,
        original_byte: 0,
    });
    // A stop one past the armed trap rewinds onto the breakpoint.
    assert_eq!(d.rewind_target(0x1001), Some(0x1000));
    // A stop anywhere else does not.
    assert_eq!(d.rewind_target(0x1000), None);
    assert_eq!(d.rewind_target(0x2001), None);
    assert_eq!(d.rewind_target(0), None);
}
