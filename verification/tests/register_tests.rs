use dbgcore::errors::DebugError;
use dbgcore::register::{
    descriptor, snapshot_read, snapshot_write, Register, RegisterKind, RegisterSelector,
};

fn zeroed_regs() -> libc::user_regs_struct {
    libc::user_regs_struct {
        r15: 0,
        r14: 0,
        r13: 0,
        r12: 0,
        rbp: 0,
        rbx: 0,
        r11: 0,
        r10: 0,
        r9: 0,
        r8: 0,
        rax: 0,
        rcx: 0,
        rdx: 0,
        rsi: 0,
        rdi: 0,
        orig_rax: 0,
        rip: 0,
        cs: 0,
        eflags: 0,
        rsp: 0,
        ss: 0,
        fs_base: 0,
        gs_base: 0,
        ds: 0,
        es: 0,
        fs: 0,
        gs: 0,
    }
}

fn all_kinds() -> Vec<RegisterKind> {
    vec![
        RegisterKind::Rax,
        RegisterKind::Rbx,
        RegisterKind::Rcx,
        RegisterKind::Rdx,
        RegisterKind::Rdi,
        RegisterKind::Rsi,
        RegisterKind::Rbp,
        RegisterKind::Rsp,
        RegisterKind::R8,
        RegisterKind::R9,
        RegisterKind::R10,
        RegisterKind::R11,
        RegisterKind::R12,
        RegisterKind::R13,
        RegisterKind::R14,
        RegisterKind::R15,
        RegisterKind::Ss,
        RegisterKind::Cs,
        RegisterKind::Ds,
        RegisterKind::Es,
        RegisterKind::Fs,
        RegisterKind::Gs,
        RegisterKind::FsBase,
        RegisterKind::GsBase,
        RegisterKind::OrigRax,
        RegisterKind::Rip,
        RegisterKind::RFlags,
    ]
}

#[test]
fn write_then_read_returns_the_written_value() {
    let values: [u64; 4] = [0, 1, 0xffff_ffff_ffff_ffff, 0x1234_5678_9abc_def0];
    for kind in all_kinds() {
        for v in values {
            let mut regs = zeroed_regs();
            snapshot_write(&mut regs, kind, v);
            assert_eq!(snapshot_read(&regs, kind), v);
        }
    }
}

#[test]
fn write_leaves_other_registers_unchanged() {
    let mut regs = zeroed_regs();
    snapshot_write(&mut regs, RegisterKind::Rax, 0x11);
    snapshot_write(&mut regs, RegisterKind::Rip, 0x22);
    snapshot_write(&mut regs, RegisterKind::RFlags, 0x33);
    assert_eq!(snapshot_read(&regs, RegisterKind::Rax), 0x11);
    assert_eq!(snapshot_read(&regs, RegisterKind::Rip), 0x22);
    assert_eq!(snapshot_read(&regs, RegisterKind::RFlags), 0x33);
    assert_eq!(snapshot_read(&regs, RegisterKind::Rbx), 0);
    assert_eq!(snapshot_read(&regs, RegisterKind::OrigRax), 0);
}

#[test]
fn name_and_number_resolve_to_the_same_register() {
    let numbered: [(&str, i64); 25] = [
        ("rax", 0),
        ("rdx", 1),
        ("rcx", 2),
        ("rbx", 3),
        ("rsi", 4),
        ("rdi", 5),
        ("rbp", 6),
        ("rsp", 7),
        ("r8", 8),
        ("r9", 9),
        ("r10", 10),
        ("r11", 11),
        ("r12", 12),
        ("r13", 13),
        ("r14", 14),
        ("r15", 15),
        ("eflags", 49),
        ("es", 50),
        ("cs", 51),
        ("ss", 52),
        ("ds", 53),
        ("fs", 54),
        ("gs", 55),
        ("fs_base", 58),
        ("gs_base", 59),
    ];
    for (name, no) in numbered {
        let by_name = Register::from_selector(RegisterSelector::Name(name)).unwrap();
        let by_no = Register::from_selector(RegisterSelector::Dwarf(no)).unwrap();
        assert_eq!(by_name.kind, by_no.kind, "{name}");
        assert_eq!(by_name.descriptor.name, name);
        assert_eq!(by_name.descriptor.dwarf_no, Some(no));
        assert_eq!(by_no.descriptor.name, name);
    }
}

#[test]
fn pseudo_registers_resolve_only_by_name() {
    let rip = Register::from_selector(RegisterSelector::Name("rip")).unwrap();
    assert_eq!(rip.kind, RegisterKind::Rip);
    assert_eq!(rip.descriptor.dwarf_no, None);
    let orig = Register::from_selector(RegisterSelector::Name("orig_rax")).unwrap();
    assert_eq!(orig.kind, RegisterKind::OrigRax);
    assert_eq!(orig.descriptor.dwarf_no, None);
    // The shared ad hoc number is ambiguous and must not resolve at all,
    // and no number anywhere reaches the two pseudo-registers.
    assert_eq!(
        Register::from_selector(RegisterSelector::Dwarf(-1)),
        Err(DebugError::Lookup)
    );
    for no in -16i64..80i64 {
        if let Ok(reg) = Register::from_selector(RegisterSelector::Dwarf(no)) {
            assert_ne!(reg.kind, RegisterKind::Rip);
            assert_ne!(reg.kind, RegisterKind::OrigRax);
        }
    }
}

#[test]
fn unknown_selectors_fail_lookup() {
    assert_eq!(
        Register::from_selector(RegisterSelector::Name("foo")),
        Err(DebugError::Lookup)
    );
    assert_eq!(
        Register::from_selector(RegisterSelector::Name("")),
        Err(DebugError::Lookup)
    );
    assert_eq!(
        Register::from_selector(RegisterSelector::Dwarf(100)),
        Err(DebugError::Lookup)
    );
}

#[test]
fn descriptors_carry_name_and_number() {
    let d = descriptor(RegisterKind::Rax);
    assert_eq!(d.name, "rax");
    assert_eq!(d.dwarf_no, Some(0));
    let d = descriptor(RegisterKind::RFlags);
    assert_eq!(d.name, "eflags");
    assert_eq!(d.dwarf_no, Some(49));
    let d = descriptor(RegisterKind::Rip);
    assert_eq!(d.name, "rip");
    assert_eq!(d.dwarf_no, None);
}

#[test]
fn read_against_dead_process_fails_with_trace_error() {
    let reg = Register::from_selector(RegisterSelector::Name("rax")).unwrap();
    assert_eq!(reg.read(-1), Err(DebugError::Trace));
    assert_eq!(reg.write(-1, 5), Err(DebugError::Trace));
}

#[test]
fn every_descriptor_name_resolves_to_its_own_register() {
    for kind in all_kinds() {
        let d = descriptor(kind);
        let reg = Register::from_selector(RegisterSelector::Name(d.name)).unwrap();
        assert_eq!(reg.kind, kind);
        assert_eq!(reg.descriptor, d);
    }
}
