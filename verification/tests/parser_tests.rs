use dbgcore::breakpoint::Location;
use dbgcore::errors::DebugError;
use dbgcore::parser::{parse_line, BreakpointCmd, Command, RegisterCmd};
use dbgcore::register::RegisterKind;

#[test]
fn continue_forms() {
    assert_eq!(parse_line("c"), Ok(Command::Continue));
    assert_eq!(parse_line("cont"), Ok(Command::Continue));
    assert_eq!(parse_line("continue"), Ok(Command::Continue));
}

#[test]
fn break_with_address() {
    assert_eq!(
        parse_line("break 0x401000"),
        Ok(Command::Breakpoint(BreakpointCmd::SetAt(Location::Address(
            0x401000
        ))))
    );
}

#[test]
fn break_hex_case_insensitive_digits() {
    assert_eq!(
        parse_line("break 0xAbC"),
        Ok(Command::Breakpoint(BreakpointCmd::SetAt(Location::Address(
            0xabc
        ))))
    );
}

#[test]
fn break_requires_hex_prefix() {
    assert_eq!(parse_line("break 401000"), Err(DebugError::Parse));
}

#[test]
fn break_missing_address() {
    assert_eq!(parse_line("break"), Err(DebugError::Parse));
}

#[test]
fn break_malformed_digits() {
    assert_eq!(parse_line("break 0xZZ"), Err(DebugError::Parse));
    assert_eq!(parse_line("break 0x"), Err(DebugError::Parse));
}

#[test]
fn break_address_overflow() {
    assert_eq!(
        parse_line("break 0x10000000000000000"),
        Err(DebugError::Parse)
    );
    assert_eq!(
        parse_line("break 0xffffffffffffffff"),
        Ok(Command::Breakpoint(BreakpointCmd::SetAt(Location::Address(
            u64::MAX
        ))))
    );
}

#[test]
fn register_read() {
    assert_eq!(
        parse_line("register read rax"),
        Ok(Command::Register(RegisterCmd::Read(RegisterKind::Rax)))
    );
    assert_eq!(
        parse_line("register r rip"),
        Ok(Command::Register(RegisterCmd::Read(RegisterKind::Rip)))
    );
}

#[test]
fn register_write() {
    assert_eq!(
        parse_line("register write rax 42"),
        Ok(Command::Register(RegisterCmd::Write(RegisterKind::Rax, 42)))
    );
    assert_eq!(
        parse_line("register w rbx 7"),
        Ok(Command::Register(RegisterCmd::Write(RegisterKind::Rbx, 7)))
    );
}

#[test]
fn register_write_missing_value() {
    assert_eq!(parse_line("register write rbx"), Err(DebugError::Parse));
}

#[test]
fn register_write_value_bounds() {
    assert_eq!(
        parse_line("register write rax 18446744073709551615"),
        Ok(Command::Register(RegisterCmd::Write(
            RegisterKind::Rax,
            u64::MAX
        )))
    );
    assert_eq!(
        parse_line("register write rax 18446744073709551616"),
        Err(DebugError::Parse)
    );
}

#[test]
fn register_unknown_name_is_lookup_error() {
    assert_eq!(parse_line("register read foo"), Err(DebugError::Lookup));
}

#[test]
fn register_unknown_subcommand() {
    assert_eq!(
        parse_line("register frobnicate"),
        Ok(Command::Register(RegisterCmd::Unknown))
    );
}

#[test]
fn register_missing_subcommand() {
    assert_eq!(parse_line("register"), Err(DebugError::Parse));
}

#[test]
fn breakpoint_list_forms() {
    assert_eq!(
        parse_line("breakpoint ls"),
        Ok(Command::Breakpoint(BreakpointCmd::List))
    );
    assert_eq!(
        parse_line("breakpoint list"),
        Ok(Command::Breakpoint(BreakpointCmd::List))
    );
}

#[test]
fn breakpoint_set_and_unset() {
    assert_eq!(
        parse_line("breakpoint set 0x1234"),
        Ok(Command::Breakpoint(BreakpointCmd::SetAt(Location::Address(
            0x1234
        ))))
    );
    assert_eq!(
        parse_line("breakpoint unset 0"),
        Ok(Command::Breakpoint(BreakpointCmd::Unset(0)))
    );
    assert_eq!(
        parse_line("breakpoint unset 17"),
        Ok(Command::Breakpoint(BreakpointCmd::Unset(17)))
    );
}

#[test]
fn breakpoint_unset_wants_decimal() {
    assert_eq!(parse_line("breakpoint unset 0x1"), Err(DebugError::Parse));
}

#[test]
fn breakpoint_unknown_subcommand() {
    assert_eq!(
        parse_line("breakpoint frobnicate"),
        Ok(Command::Breakpoint(BreakpointCmd::Unknown))
    );
}

#[test]
fn breakpoint_missing_subcommand() {
    assert_eq!(parse_line("breakpoint"), Err(DebugError::Parse));
}

#[test]
fn superfluous_arguments_are_rejected() {
    assert_eq!(parse_line("breakpoint ls extra"), Err(DebugError::Parse));
    assert_eq!(parse_line("break 0x10 0x20"), Err(DebugError::Parse));
}

#[test]
fn continue_takes_no_arguments() {
    assert_eq!(parse_line("c extra"), Err(DebugError::Parse));
}

#[test]
fn unknown_top_level_token() {
    assert_eq!(parse_line("xyz"), Ok(Command::Unknown));
}

#[test]
fn empty_and_blank_lines_parse_as_unknown() {
    assert_eq!(parse_line(""), Ok(Command::Unknown));
    assert_eq!(parse_line("   "), Ok(Command::Unknown));
}

#[test]
fn extra_spaces_between_tokens() {
    assert_eq!(
        parse_line("  register   read   rax  "),
        Ok(Command::Register(RegisterCmd::Read(RegisterKind::Rax)))
    );
}
