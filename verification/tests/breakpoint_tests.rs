use dbgcore::breakpoint::{Breakpoint, Location, TRAP_OPCODE};
use dbgcore::errors::DebugError;

#[test]
fn new_breakpoint_starts_disabled() {
    let bp = Breakpoint::new(7, Location::Address(0x1000));
    assert_eq!(bp.pid, 7);
    assert_eq!(bp.location, Location::Address(0x1000));
    assert!(!bp.enabled);
    assert_eq!(bp.original_byte, 0);
}

#[test]
fn enable_then_disable_restores_every_byte_value() {
    // Every possible original low byte, including one that equals the trap
    // opcode itself, survives the patch round trip.
    for b in 0u16..=255u16 {
        let word: u64 = 0xdead_beef_1234_5600u64 | (b as u64);
        let mut bp = Breakpoint::new(1, Location::Address(0x4000));
        let (patched, saved) = bp.enable_patch(word).unwrap();
        assert_eq!(patched & 0xff, TRAP_OPCODE as u64);
        assert_eq!(patched & !0xffu64, word & !0xffu64);
        assert_eq!(saved as u16, b);
        bp.commit_enable(saved);
        assert!(bp.enabled);
        assert_eq!(bp.original_byte as u16, b);
        let restored = bp.disable_patch(patched);
        assert_eq!(restored, word);
        bp.commit_disable();
        assert!(!bp.enabled);
        assert_eq!(bp.original_byte, 0);
    }
}

#[test]
fn enable_when_already_enabled_is_rejected() {
    let mut bp = Breakpoint::new(1, Location::Address(0x4000));
    let (_, saved) = bp.enable_patch(0xdead_beef_0000_0041).unwrap();
    bp.commit_enable(saved);
    // A second patch attempt is refused and the saved byte is untouched.
    assert_eq!(
        bp.enable_patch(0xdead_beef_0000_00cc),
        Err(DebugError::AlreadyEnabled)
    );
    assert_eq!(bp.original_byte, 0x41);
    // The full enable path refuses before touching the traced process.
    assert_eq!(bp.enable(), Err(DebugError::AlreadyEnabled));
    assert_eq!(bp.original_byte, 0x41);
    assert!(bp.enabled);
}

#[test]
fn disable_when_disabled_is_a_no_op() {
    let mut bp = Breakpoint::new(1, Location::Address(0x4000));
    let word: u64 = 0x0102_0304_0506_0708;
    assert_eq!(bp.disable_patch(word), word);
    // The full disable path returns without touching the traced process.
    assert_eq!(bp.disable(), Ok(()));
    assert!(!bp.enabled);
}

#[test]
fn enable_against_dead_process_fails_with_trace_error() {
    // No process with this pid can be traced, so the memory peek fails and
    // the breakpoint must be left unchanged.
    let mut bp = Breakpoint::new(-1, Location::Address(0x4000));
    assert_eq!(bp.enable(), Err(DebugError::Trace));
    assert!(!bp.enabled);
    assert_eq!(bp.original_byte, 0);
}
