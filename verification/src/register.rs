//! The register file of the traced process: the closed set of registers the
//! tracing ABI exposes, lookup by name or by debug-info number, and typed
//! read/write access that goes through one whole-snapshot syscall each way.

use crate::errors::DebugError;
use crate::trace;
use vstd::prelude::*;
use vstd::string::StringSliceAdditionalSpecFns;
use vstd::utf8::{encode_utf8, is_ascii_chars, is_ascii_chars_encode_utf8};

verus! {

/// Every register the tracing ABI exposes for the supported architecture:
/// the general-purpose registers, the segment registers, the two segment
/// base registers, the flags register, and two pseudo-registers (the
/// instruction pointer and the syscall-restart slot) that carry no
/// canonical debug-info number and are addressed by name only.
#[derive(Debug, Clone, Copy, PartialEq, Eq, Structural)]
pub enum RegisterKind {
    Rax,
    Rbx,
    Rcx,
    Rdx,
    Rdi,
    Rsi,
    Rbp,
    Rsp,
    R8,
    R9,
    R10,
    R11,
    R12,
    R13,
    R14,
    R15,
    Ss,
    Cs,
    Ds,
    Es,
    Fs,
    Gs,
    FsBase,
    GsBase,
    OrigRax,
    Rip,
    RFlags,
}

/// The canonical debug-info number of a register, if it has one.  The two
/// pseudo-registers have none: handing both the same made-up number would
/// make number-based lookup ambiguous, so they resolve by name only.
pub open spec fn dwarf_number(k: RegisterKind) -> Option<i64> {
    match k {
        RegisterKind::Rax => Some(0i64),
        RegisterKind::Rbx => Some(3i64),
        RegisterKind::Rcx => Some(2i64),
        RegisterKind::Rdx => Some(1i64),
        RegisterKind::Rdi => Some(5i64),
        RegisterKind::Rsi => Some(4i64),
        RegisterKind::Rbp => Some(6i64),
        RegisterKind::Rsp => Some(7i64),
        RegisterKind::R8 => Some(8i64),
        RegisterKind::R9 => Some(9i64),
        RegisterKind::R10 => Some(10i64),
        RegisterKind::R11 => Some(11i64),
        RegisterKind::R12 => Some(12i64),
        RegisterKind::R13 => Some(13i64),
        RegisterKind::R14 => Some(14i64),
        RegisterKind::R15 => Some(15i64),
        RegisterKind::Ss => Some(52i64),
        RegisterKind::Cs => Some(51i64),
        RegisterKind::Ds => Some(53i64),
        RegisterKind::Es => Some(50i64),
        RegisterKind::Fs => Some(54i64),
        RegisterKind::Gs => Some(55i64),
        RegisterKind::FsBase => Some(58i64),
        RegisterKind::GsBase => Some(59i64),
        RegisterKind::OrigRax => None,
        RegisterKind::Rip => None,
        RegisterKind::RFlags => Some(49i64),
    }
}

/// The name of a register, as the characters of its lookup string.
pub open spec fn reg_name_chars(k: RegisterKind) -> Seq<char> {
    match k {
        RegisterKind::Rax => "rax"@,
        RegisterKind::Rbx => "rbx"@,
        RegisterKind::Rcx => "rcx"@,
        RegisterKind::Rdx => "rdx"@,
        RegisterKind::Rdi => "rdi"@,
        RegisterKind::Rsi => "rsi"@,
        RegisterKind::Rbp => "rbp"@,
        RegisterKind::Rsp => "rsp"@,
        RegisterKind::R8 => "r8"@,
        RegisterKind::R9 => "r9"@,
        RegisterKind::R10 => "r10"@,
        RegisterKind::R11 => "r11"@,
        RegisterKind::R12 => "r12"@,
        RegisterKind::R13 => "r13"@,
        RegisterKind::R14 => "r14"@,
        RegisterKind::R15 => "r15"@,
        RegisterKind::Ss => "ss"@,
        RegisterKind::Cs => "cs"@,
        RegisterKind::Ds => "ds"@,
        RegisterKind::Es => "es"@,
        RegisterKind::Fs => "fs"@,
        RegisterKind::Gs => "gs"@,
        RegisterKind::FsBase => "fs_base"@,
        RegisterKind::GsBase => "gs_base"@,
        RegisterKind::OrigRax => "orig_rax"@,
        RegisterKind::Rip => "rip"@,
        RegisterKind::RFlags => "eflags"@,
    }
}

/// The name of a register, as the bytes a command line spells it with.
pub open spec fn name_bytes(k: RegisterKind) -> Seq<u8> {
    match k {
        RegisterKind::Rax => seq!['r' as u8, 'a' as u8, 'x' as u8],
        RegisterKind::Rbx => seq!['r' as u8, 'b' as u8, 'x' as u8],
        RegisterKind::Rcx => seq!['r' as u8, 'c' as u8, 'x' as u8],
        RegisterKind::Rdx => seq!['r' as u8, 'd' as u8, 'x' as u8],
        RegisterKind::Rdi => seq!['r' as u8, 'd' as u8, 'i' as u8],
        RegisterKind::Rsi => seq!['r' as u8, 's' as u8, 'i' as u8],
        RegisterKind::Rbp => seq!['r' as u8, 'b' as u8, 'p' as u8],
        RegisterKind::Rsp => seq!['r' as u8, 's' as u8, 'p' as u8],
        RegisterKind::R8 => seq!['r' as u8, '8' as u8],
        RegisterKind::R9 => seq!['r' as u8, '9' as u8],
        RegisterKind::R10 => seq!['r' as u8, '1' as u8, '0' as u8],
        RegisterKind::R11 => seq!['r' as u8, '1' as u8, '1' as u8],
        RegisterKind::R12 => seq!['r' as u8, '1' as u8, '2' as u8],
        RegisterKind::R13 => seq!['r' as u8, '1' as u8, '3' as u8],
        RegisterKind::R14 => seq!['r' as u8, '1' as u8, '4' as u8],
        RegisterKind::R15 => seq!['r' as u8, '1' as u8, '5' as u8],
        RegisterKind::Ss => seq!['s' as u8, 's' as u8],
        RegisterKind::Cs => seq!['c' as u8, 's' as u8],
        RegisterKind::Ds => seq!['d' as u8, 's' as u8],
        RegisterKind::Es => seq!['e' as u8, 's' as u8],
        RegisterKind::Fs => seq!['f' as u8, 's' as u8],
        RegisterKind::Gs => seq!['g' as u8, 's' as u8],
        RegisterKind::FsBase => seq!['f' as u8, 's' as u8, '_' as u8, 'b' as u8, 'a' as u8, 's' as u8, 'e' as u8],
        RegisterKind::GsBase => seq!['g' as u8, 's' as u8, '_' as u8, 'b' as u8, 'a' as u8, 's' as u8, 'e' as u8],
        RegisterKind::OrigRax => seq!['o' as u8, 'r' as u8, 'i' as u8, 'g' as u8, '_' as u8, 'r' as u8, 'a' as u8, 'x' as u8],
        RegisterKind::Rip => seq!['r' as u8, 'i' as u8, 'p' as u8],
        RegisterKind::RFlags => seq!['e' as u8, 'f' as u8, 'l' as u8, 'a' as u8, 'g' as u8, 's' as u8],
    }
}

/// Which register a name denotes, if any.
pub open spec fn kind_of_name(s: Seq<u8>) -> Option<RegisterKind> {
    if s == name_bytes(RegisterKind::Rax) {
        Some(RegisterKind::Rax)
    } else if s == name_bytes(RegisterKind::Rbx) {
        Some(RegisterKind::Rbx)
    } else if s == name_bytes(RegisterKind::Rcx) {
        Some(RegisterKind::Rcx)
    } else if s == name_bytes(RegisterKind::Rdx) {
        Some(RegisterKind::Rdx)
    } else if s == name_bytes(RegisterKind::Rdi) {
        Some(RegisterKind::Rdi)
    } else if s == name_bytes(RegisterKind::Rsi) {
        Some(RegisterKind::Rsi)
    } else if s == name_bytes(RegisterKind::Rbp) {
        Some(RegisterKind::Rbp)
    } else if s == name_bytes(RegisterKind::Rsp) {
        Some(RegisterKind::Rsp)
    } else if s == name_bytes(RegisterKind::R8) {
        Some(RegisterKind::R8)
    } else if s == name_bytes(RegisterKind::R9) {
        Some(RegisterKind::R9)
    } else if s == name_bytes(RegisterKind::R10) {
        Some(RegisterKind::R10)
    } else if s == name_bytes(RegisterKind::R11) {
        Some(RegisterKind::R11)
    } else if s == name_bytes(RegisterKind::R12) {
        Some(RegisterKind::R12)
    } else if s == name_bytes(RegisterKind::R13) {
        Some(RegisterKind::R13)
    } else if s == name_bytes(RegisterKind::R14) {
        Some(RegisterKind::R14)
    } else if s == name_bytes(RegisterKind::R15) {
        Some(RegisterKind::R15)
    } else if s == name_bytes(RegisterKind::Ss) {
        Some(RegisterKind::Ss)
    } else if s == name_bytes(RegisterKind::Cs) {
        Some(RegisterKind::Cs)
    } else if s == name_bytes(RegisterKind::Ds) {
        Some(RegisterKind::Ds)
    } else if s == name_bytes(RegisterKind::Es) {
        Some(RegisterKind::Es)
    } else if s == name_bytes(RegisterKind::Fs) {
        Some(RegisterKind::Fs)
    } else if s == name_bytes(RegisterKind::Gs) {
        Some(RegisterKind::Gs)
    } else if s == name_bytes(RegisterKind::FsBase) {
        Some(RegisterKind::FsBase)
    } else if s == name_bytes(RegisterKind::GsBase) {
        Some(RegisterKind::GsBase)
    } else if s == name_bytes(RegisterKind::OrigRax) {
        Some(RegisterKind::OrigRax)
    } else if s == name_bytes(RegisterKind::Rip) {
        Some(RegisterKind::Rip)
    } else if s == name_bytes(RegisterKind::RFlags) {
        Some(RegisterKind::RFlags)
    } else {
        None
    }
}

/// Which register a debug-info number denotes, if any.  The two
/// pseudo-registers are deliberately absent: no number maps to them.
pub open spec fn kind_of_dwarf(n: i64) -> Option<RegisterKind> {
    if n == 0i64 {
        Some(RegisterKind::Rax)
    } else if n == 3i64 {
        Some(RegisterKind::Rbx)
    } else if n == 2i64 {
        Some(RegisterKind::Rcx)
    } else if n == 1i64 {
        Some(RegisterKind::Rdx)
    } else if n == 5i64 {
        Some(RegisterKind::Rdi)
    } else if n == 4i64 {
        Some(RegisterKind::Rsi)
    } else if n == 6i64 {
        Some(RegisterKind::Rbp)
    } else if n == 7i64 {
        Some(RegisterKind::Rsp)
    } else if n == 8i64 {
        Some(RegisterKind::R8)
    } else if n == 9i64 {
        Some(RegisterKind::R9)
    } else if n == 10i64 {
        Some(RegisterKind::R10)
    } else if n == 11i64 {
        Some(RegisterKind::R11)
    } else if n == 12i64 {
        Some(RegisterKind::R12)
    } else if n == 13i64 {
        Some(RegisterKind::R13)
    } else if n == 14i64 {
        Some(RegisterKind::R14)
    } else if n == 15i64 {
        Some(RegisterKind::R15)
    } else if n == 52i64 {
        Some(RegisterKind::Ss)
    } else if n == 51i64 {
        Some(RegisterKind::Cs)
    } else if n == 53i64 {
        Some(RegisterKind::Ds)
    } else if n == 50i64 {
        Some(RegisterKind::Es)
    } else if n == 54i64 {
        Some(RegisterKind::Fs)
    } else if n == 55i64 {
        Some(RegisterKind::Gs)
    } else if n == 58i64 {
        Some(RegisterKind::FsBase)
    } else if n == 59i64 {
        Some(RegisterKind::GsBase)
    } else if n == 49i64 {
        Some(RegisterKind::RFlags)
    } else {
        None
    }
}

/// Resolve a register name, byte for byte.
pub(crate) fn name_kind(b: &[u8]) -> (r: Option<RegisterKind>)
    ensures
        r == kind_of_name(b@),
{
    if b.len() == 3 && b[0] == 'r' as u8 && b[1] == 'a' as u8 && b[2] == 'x' as u8 {
        proof { assert(b@ =~= name_bytes(RegisterKind::Rax)); }
        return Some(RegisterKind::Rax);
    }
    if b.len() == 3 && b[0] == 'r' as u8 && b[1] == 'b' as u8 && b[2] == 'x' as u8 {
        proof { assert(b@ =~= name_bytes(RegisterKind::Rbx)); }
        return Some(RegisterKind::Rbx);
    }
    if b.len() == 3 && b[0] == 'r' as u8 && b[1] == 'c' as u8 && b[2] == 'x' as u8 {
        proof { assert(b@ =~= name_bytes(RegisterKind::Rcx)); }
        return Some(RegisterKind::Rcx);
    }
    if b.len() == 3 && b[0] == 'r' as u8 && b[1] == 'd' as u8 && b[2] == 'x' as u8 {
        proof { assert(b@ =~= name_bytes(RegisterKind::Rdx)); }
        return Some(RegisterKind::Rdx);
    }
    if b.len() == 3 && b[0] == 'r' as u8 && b[1] == 'd' as u8 && b[2] == 'i' as u8 {
        proof { assert(b@ =~= name_bytes(RegisterKind::Rdi)); }
        return Some(RegisterKind::Rdi);
    }
    if b.len() == 3 && b[0] == 'r' as u8 && b[1] == 's' as u8 && b[2] == 'i' as u8 {
        proof { assert(b@ =~= name_bytes(RegisterKind::Rsi)); }
        return Some(RegisterKind::Rsi);
    }
    if b.len() == 3 && b[0] == 'r' as u8 && b[1] == 'b' as u8 && b[2] == 'p' as u8 {
        proof { assert(b@ =~= name_bytes(RegisterKind::Rbp)); }
        return Some(RegisterKind::Rbp);
    }
    if b.len() == 3 && b[0] == 'r' as u8 && b[1] == 's' as u8 && b[2] == 'p' as u8 {
        proof { assert(b@ =~= name_bytes(RegisterKind::Rsp)); }
        return Some(RegisterKind::Rsp);
    }
    if b.len() == 2 && b[0] == 'r' as u8 && b[1] == '8' as u8 {
        proof { assert(b@ =~= name_bytes(RegisterKind::R8)); }
        return Some(RegisterKind::R8);
    }
    if b.len() == 2 && b[0] == 'r' as u8 && b[1] == '9' as u8 {
        proof { assert(b@ =~= name_bytes(RegisterKind::R9)); }
        return Some(RegisterKind::R9);
    }
    if b.len() == 3 && b[0] == 'r' as u8 && b[1] == '1' as u8 && b[2] == '0' as u8 {
        proof { assert(b@ =~= name_bytes(RegisterKind::R10)); }
        return Some(RegisterKind::R10);
    }
    if b.len() == 3 && b[0] == 'r' as u8 && b[1] == '1' as u8 && b[2] == '1' as u8 {
        proof { assert(b@ =~= name_bytes(RegisterKind::R11)); }
        return Some(RegisterKind::R11);
    }
    if b.len() == 3 && b[0] == 'r' as u8 && b[1] == '1' as u8 && b[2] == '2' as u8 {
        proof { assert(b@ =~= name_bytes(RegisterKind::R12)); }
        return Some(RegisterKind::R12);
    }
    if b.len() == 3 && b[0] == 'r' as u8 && b[1] == '1' as u8 && b[2] == '3' as u8 {
        proof { assert(b@ =~= name_bytes(RegisterKind::R13)); }
        return Some(RegisterKind::R13);
    }
    if b.len() == 3 && b[0] == 'r' as u8 && b[1] == '1' as u8 && b[2] == '4' as u8 {
        proof { assert(b@ =~= name_bytes(RegisterKind::R14)); }
        return Some(RegisterKind::R14);
    }
    if b.len() == 3 && b[0] == 'r' as u8 && b[1] == '1' as u8 && b[2] == '5' as u8 {
        proof { assert(b@ =~= name_bytes(RegisterKind::R15)); }
        return Some(RegisterKind::R15);
    }
    if b.len() == 2 && b[0] == 's' as u8 && b[1] == 's' as u8 {
        proof { assert(b@ =~= name_bytes(RegisterKind::Ss)); }
        return Some(RegisterKind::Ss);
    }
    if b.len() == 2 && b[0] == 'c' as u8 && b[1] == 's' as u8 {
        proof { assert(b@ =~= name_bytes(RegisterKind::Cs)); }
        return Some(RegisterKind::Cs);
    }
    if b.len() == 2 && b[0] == 'd' as u8 && b[1] == 's' as u8 {
        proof { assert(b@ =~= name_bytes(RegisterKind::Ds)); }
        return Some(RegisterKind::Ds);
    }
    if b.len() == 2 && b[0] == 'e' as u8 && b[1] == 's' as u8 {
        proof { assert(b@ =~= name_bytes(RegisterKind::Es)); }
        return Some(RegisterKind::Es);
    }
    if b.len() == 2 && b[0] == 'f' as u8 && b[1] == 's' as u8 {
        proof { assert(b@ =~= name_bytes(RegisterKind::Fs)); }
        return Some(RegisterKind::Fs);
    }
    if b.len() == 2 && b[0] == 'g' as u8 && b[1] == 's' as u8 {
        proof { assert(b@ =~= name_bytes(RegisterKind::Gs)); }
        return Some(RegisterKind::Gs);
    }
    if b.len() == 7 && b[0] == 'f' as u8 && b[1] == 's' as u8 && b[2] == '_' as u8 && b[3] == 'b' as u8 && b[4] == 'a' as u8 && b[5] == 's' as u8 && b[6] == 'e' as u8 {
        proof { assert(b@ =~= name_bytes(RegisterKind::FsBase)); }
        return Some(RegisterKind::FsBase);
    }
    if b.len() == 7 && b[0] == 'g' as u8 && b[1] == 's' as u8 && b[2] == '_' as u8 && b[3] == 'b' as u8 && b[4] == 'a' as u8 && b[5] == 's' as u8 && b[6] == 'e' as u8 {
        proof { assert(b@ =~= name_bytes(RegisterKind::GsBase)); }
        return Some(RegisterKind::GsBase);
    }
    if b.len() == 8 && b[0] == 'o' as u8 && b[1] == 'r' as u8 && b[2] == 'i' as u8 && b[3] == 'g' as u8 && b[4] == '_' as u8 && b[5] == 'r' as u8 && b[6] == 'a' as u8 && b[7] == 'x' as u8 {
        proof { assert(b@ =~= name_bytes(RegisterKind::OrigRax)); }
        return Some(RegisterKind::OrigRax);
    }
    if b.len() == 3 && b[0] == 'r' as u8 && b[1] == 'i' as u8 && b[2] == 'p' as u8 {
        proof { assert(b@ =~= name_bytes(RegisterKind::Rip)); }
        return Some(RegisterKind::Rip);
    }
    if b.len() == 6 && b[0] == 'e' as u8 && b[1] == 'f' as u8 && b[2] == 'l' as u8 && b[3] == 'a' as u8 && b[4] == 'g' as u8 && b[5] == 's' as u8 {
        proof { assert(b@ =~= name_bytes(RegisterKind::RFlags)); }
        return Some(RegisterKind::RFlags);
    }
    None
}

/// Resolve a debug-info number.
fn dwarf_kind(n: i64) -> (r: Option<RegisterKind>)
    ensures
        r == kind_of_dwarf(n),
{
    if n == 0i64 {
        return Some(RegisterKind::Rax);
    }
    if n == 3i64 {
        return Some(RegisterKind::Rbx);
    }
    if n == 2i64 {
        return Some(RegisterKind::Rcx);
    }
    if n == 1i64 {
        return Some(RegisterKind::Rdx);
    }
    if n == 5i64 {
        return Some(RegisterKind::Rdi);
    }
    if n == 4i64 {
        return Some(RegisterKind::Rsi);
    }
    if n == 6i64 {
        return Some(RegisterKind::Rbp);
    }
    if n == 7i64 {
        return Some(RegisterKind::Rsp);
    }
    if n == 8i64 {
        return Some(RegisterKind::R8);
    }
    if n == 9i64 {
        return Some(RegisterKind::R9);
    }
    if n == 10i64 {
        return Some(RegisterKind::R10);
    }
    if n == 11i64 {
        return Some(RegisterKind::R11);
    }
    if n == 12i64 {
        return Some(RegisterKind::R12);
    }
    if n == 13i64 {
        return Some(RegisterKind::R13);
    }
    if n == 14i64 {
        return Some(RegisterKind::R14);
    }
    if n == 15i64 {
        return Some(RegisterKind::R15);
    }
    if n == 52i64 {
        return Some(RegisterKind::Ss);
    }
    if n == 51i64 {
        return Some(RegisterKind::Cs);
    }
    if n == 53i64 {
        return Some(RegisterKind::Ds);
    }
    if n == 50i64 {
        return Some(RegisterKind::Es);
    }
    if n == 54i64 {
        return Some(RegisterKind::Fs);
    }
    if n == 55i64 {
        return Some(RegisterKind::Gs);
    }
    if n == 58i64 {
        return Some(RegisterKind::FsBase);
    }
    if n == 59i64 {
        return Some(RegisterKind::GsBase);
    }
    if n == 49i64 {
        return Some(RegisterKind::RFlags);
    }
    None
}

/// What a register projects out of the whole-snapshot register image.
pub open spec fn reg_field(regs: libc::user_regs_struct, k: RegisterKind) -> u64 {
    match k {
        RegisterKind::Rax => regs.rax,
        RegisterKind::Rbx => regs.rbx,
        RegisterKind::Rcx => regs.rcx,
        RegisterKind::Rdx => regs.rdx,
        RegisterKind::Rdi => regs.rdi,
        RegisterKind::Rsi => regs.rsi,
        RegisterKind::Rbp => regs.rbp,
        RegisterKind::Rsp => regs.rsp,
        RegisterKind::R8 => regs.r8,
        RegisterKind::R9 => regs.r9,
        RegisterKind::R10 => regs.r10,
        RegisterKind::R11 => regs.r11,
        RegisterKind::R12 => regs.r12,
        RegisterKind::R13 => regs.r13,
        RegisterKind::R14 => regs.r14,
        RegisterKind::R15 => regs.r15,
        RegisterKind::Ss => regs.ss,
        RegisterKind::Cs => regs.cs,
        RegisterKind::Ds => regs.ds,
        RegisterKind::Es => regs.es,
        RegisterKind::Fs => regs.fs,
        RegisterKind::Gs => regs.gs,
        RegisterKind::FsBase => regs.fs_base,
        RegisterKind::GsBase => regs.gs_base,
        RegisterKind::OrigRax => regs.orig_rax,
        RegisterKind::Rip => regs.rip,
        RegisterKind::RFlags => regs.eflags,
    }
}

/// Project one register out of a snapshot of the traced process's
/// registers.
pub fn snapshot_read(regs: &libc::user_regs_struct, k: RegisterKind) -> (r: u64)
    ensures
        r == reg_field(*regs, k),
{
    match k {
        RegisterKind::Rax => regs.rax,
        RegisterKind::Rbx => regs.rbx,
        RegisterKind::Rcx => regs.rcx,
        RegisterKind::Rdx => regs.rdx,
        RegisterKind::Rdi => regs.rdi,
        RegisterKind::Rsi => regs.rsi,
        RegisterKind::Rbp => regs.rbp,
        RegisterKind::Rsp => regs.rsp,
        RegisterKind::R8 => regs.r8,
        RegisterKind::R9 => regs.r9,
        RegisterKind::R10 => regs.r10,
        RegisterKind::R11 => regs.r11,
        RegisterKind::R12 => regs.r12,
        RegisterKind::R13 => regs.r13,
        RegisterKind::R14 => regs.r14,
        RegisterKind::R15 => regs.r15,
        RegisterKind::Ss => regs.ss,
        RegisterKind::Cs => regs.cs,
        RegisterKind::Ds => regs.ds,
        RegisterKind::Es => regs.es,
        RegisterKind::Fs => regs.fs,
        RegisterKind::Gs => regs.gs,
        RegisterKind::FsBase => regs.fs_base,
        RegisterKind::GsBase => regs.gs_base,
        RegisterKind::OrigRax => regs.orig_rax,
        RegisterKind::Rip => regs.rip,
        RegisterKind::RFlags => regs.eflags,
    }
}

/// Set one register in a snapshot, leaving every other register unchanged:
/// reading the written register back out of the new snapshot yields exactly
/// the written value.
pub fn snapshot_write(regs: &mut libc::user_regs_struct, k: RegisterKind, v: u64)
    ensures
        reg_field(*final(regs), k) == v,
        forall|k2: RegisterKind| k2 != k ==> reg_field(*final(regs), k2) == reg_field(
            *old(regs),
            k2,
        ),
{
    match k {
        RegisterKind::Rax => regs.rax = v,
        RegisterKind::Rbx => regs.rbx = v,
        RegisterKind::Rcx => regs.rcx = v,
        RegisterKind::Rdx => regs.rdx = v,
        RegisterKind::Rdi => regs.rdi = v,
        RegisterKind::Rsi => regs.rsi = v,
        RegisterKind::Rbp => regs.rbp = v,
        RegisterKind::Rsp => regs.rsp = v,
        RegisterKind::R8 => regs.r8 = v,
        RegisterKind::R9 => regs.r9 = v,
        RegisterKind::R10 => regs.r10 = v,
        RegisterKind::R11 => regs.r11 = v,
        RegisterKind::R12 => regs.r12 = v,
        RegisterKind::R13 => regs.r13 = v,
        RegisterKind::R14 => regs.r14 = v,
        RegisterKind::R15 => regs.r15 = v,
        RegisterKind::Ss => regs.ss = v,
        RegisterKind::Cs => regs.cs = v,
        RegisterKind::Ds => regs.ds = v,
        RegisterKind::Es => regs.es = v,
        RegisterKind::Fs => regs.fs = v,
        RegisterKind::Gs => regs.gs = v,
        RegisterKind::FsBase => regs.fs_base = v,
        RegisterKind::GsBase => regs.gs_base = v,
        RegisterKind::OrigRax => regs.orig_rax = v,
        RegisterKind::Rip => regs.rip = v,
        RegisterKind::RFlags => regs.eflags = v,
    }
}

/// How a register is found from the outside: by its name, or by its
/// canonical debug-info number.
#[derive(Debug, Clone, Copy, PartialEq, Eq)]
pub enum RegisterSelector<'a> {
    Dwarf(i64),
    Name(&'a str),
}

/// A register's identity together with the name and optional debug-info
/// number it is known by.
#[derive(Debug, Clone, Copy, PartialEq, Eq)]
pub struct RegisterDescriptor {
    pub dwarf_no: Option<i64>,
    pub name: &'static str,
}

/// One resolved register: its identity and its descriptor.
#[derive(Debug, Clone, Copy, PartialEq, Eq)]
pub struct Register {
    pub kind: RegisterKind,
    pub descriptor: RegisterDescriptor,
}

/// The descriptor of a register.
pub fn descriptor(kind: RegisterKind) -> (r: RegisterDescriptor)
    ensures
        r.dwarf_no == dwarf_number(kind),
        r.name@ == reg_name_chars(kind),
{
    match kind {
        RegisterKind::Rax => RegisterDescriptor { dwarf_no: Some(0i64), name: "rax" },
        RegisterKind::Rbx => RegisterDescriptor { dwarf_no: Some(3i64), name: "rbx" },
        RegisterKind::Rcx => RegisterDescriptor { dwarf_no: Some(2i64), name: "rcx" },
        RegisterKind::Rdx => RegisterDescriptor { dwarf_no: Some(1i64), name: "rdx" },
        RegisterKind::Rdi => RegisterDescriptor { dwarf_no: Some(5i64), name: "rdi" },
        RegisterKind::Rsi => RegisterDescriptor { dwarf_no: Some(4i64), name: "rsi" },
        RegisterKind::Rbp => RegisterDescriptor { dwarf_no: Some(6i64), name: "rbp" },
        RegisterKind::Rsp => RegisterDescriptor { dwarf_no: Some(7i64), name: "rsp" },
        RegisterKind::R8 => RegisterDescriptor { dwarf_no: Some(8i64), name: "r8" },
        RegisterKind::R9 => RegisterDescriptor { dwarf_no: Some(9i64), name: "r9" },
        RegisterKind::R10 => RegisterDescriptor { dwarf_no: Some(10i64), name: "r10" },
        RegisterKind::R11 => RegisterDescriptor { dwarf_no: Some(11i64), name: "r11" },
        RegisterKind::R12 => RegisterDescriptor { dwarf_no: Some(12i64), name: "r12" },
        RegisterKind::R13 => RegisterDescriptor { dwarf_no: Some(13i64), name: "r13" },
        RegisterKind::R14 => RegisterDescriptor { dwarf_no: Some(14i64), name: "r14" },
        RegisterKind::R15 => RegisterDescriptor { dwarf_no: Some(15i64), name: "r15" },
        RegisterKind::Ss => RegisterDescriptor { dwarf_no: Some(52i64), name: "ss" },
        RegisterKind::Cs => RegisterDescriptor { dwarf_no: Some(51i64), name: "cs" },
        RegisterKind::Ds => RegisterDescriptor { dwarf_no: Some(53i64), name: "ds" },
        RegisterKind::Es => RegisterDescriptor { dwarf_no: Some(50i64), name: "es" },
        RegisterKind::Fs => RegisterDescriptor { dwarf_no: Some(54i64), name: "fs" },
        RegisterKind::Gs => RegisterDescriptor { dwarf_no: Some(55i64), name: "gs" },
        RegisterKind::FsBase => RegisterDescriptor { dwarf_no: Some(58i64), name: "fs_base" },
        RegisterKind::GsBase => RegisterDescriptor { dwarf_no: Some(59i64), name: "gs_base" },
        RegisterKind::OrigRax => RegisterDescriptor { dwarf_no: None, name: "orig_rax" },
        RegisterKind::Rip => RegisterDescriptor { dwarf_no: None, name: "rip" },
        RegisterKind::RFlags => RegisterDescriptor { dwarf_no: Some(49i64), name: "eflags" },
    }
}

impl Register {
    /// Resolve a selector to a register.  A name resolves if and only if it
    /// spells one of the register names; a number resolves if and only if
    /// it is the canonical debug-info number of a register, which excludes
    /// the two pseudo-registers.
    pub fn from_selector(selector: RegisterSelector) -> (r: Result<Register, DebugError>)
        ensures
            ({
                let k = match selector {
                    RegisterSelector::Dwarf(n) => kind_of_dwarf(n),
                    RegisterSelector::Name(s) => kind_of_name(s.spec_bytes()),
                };
                match k {
                    Some(kind) => r matches Ok(reg) && reg.kind == kind
                        && reg.descriptor.dwarf_no == dwarf_number(kind)
                        && reg.descriptor.name@ == reg_name_chars(kind),
                    None => r == Err::<Register, DebugError>(DebugError::Lookup),
                }
            }),
    {
        let kind = match selector {
            RegisterSelector::Dwarf(n) => dwarf_kind(n),
            RegisterSelector::Name(s) => name_kind(s.as_bytes()),
        };
        match kind {
            Some(k) => Ok(Register { kind: k, descriptor: descriptor(k) }),
            None => Err(DebugError::Lookup),
        }
    }

    /// Read this register from the traced process: fetch the whole register
    /// snapshot in one syscall and project the one field.  What comes back
    /// is whatever the traced process's register holds at this stop; a
    /// trace failure (process not stopped, or exited) aborts the read.
    pub fn read(&self, pid: i32) -> (r: Result<u64, DebugError>)
        ensures
            r matches Err(e) ==> e == DebugError::Trace,
    {
        match trace::get_regs(pid) {
            Ok(regs) => Ok(snapshot_read(&regs, self.kind)),
            Err(e) => Err(e),
        }
    }

    /// Write this register in the traced process: fetch the whole snapshot,
    /// set the one field, and commit the whole snapshot back.  On a trace
    /// failure nothing is committed.
    pub fn write(&self, pid: i32, value: u64) -> (r: Result<(), DebugError>)
        ensures
            r matches Err(e) ==> e == DebugError::Trace,
    {
        let mut regs = match trace::get_regs(pid) {
            Ok(regs) => regs,
            Err(e) => return Err(e),
        };
        snapshot_write(&mut regs, self.kind, value);
        trace::set_regs(pid, &regs)
    }
}

/// Looking a register up by its canonical debug-info number finds exactly
/// that register: number-based lookup agrees with the numbers the
/// descriptors carry.
pub proof fn lemma_dwarf_lookup_identity(k: RegisterKind, n: i64)
    requires
        dwarf_number(k) == Some(n),
    ensures
        kind_of_dwarf(n) == Some(k),
{
}

/// Looking a register up by its own name finds exactly that register.
pub proof fn lemma_name_lookup_identity(k: RegisterKind)
    ensures
        kind_of_name(name_bytes(k)) == Some(k),
{
    assert(name_bytes(RegisterKind::Rax).len() == 3);
    assert(name_bytes(RegisterKind::Rax)[0] == 'r' as u8);
    assert(name_bytes(RegisterKind::Rax)[1] == 'a' as u8);
    assert(name_bytes(RegisterKind::Rax)[2] == 'x' as u8);
    assert(name_bytes(RegisterKind::Rbx).len() == 3);
    assert(name_bytes(RegisterKind::Rbx)[0] == 'r' as u8);
    assert(name_bytes(RegisterKind::Rbx)[1] == 'b' as u8);
    assert(name_bytes(RegisterKind::Rbx)[2] == 'x' as u8);
    assert(name_bytes(RegisterKind::Rcx).len() == 3);
    assert(name_bytes(RegisterKind::Rcx)[0] == 'r' as u8);
    assert(name_bytes(RegisterKind::Rcx)[1] == 'c' as u8);
    assert(name_bytes(RegisterKind::Rcx)[2] == 'x' as u8);
    assert(name_bytes(RegisterKind::Rdx).len() == 3);
    assert(name_bytes(RegisterKind::Rdx)[0] == 'r' as u8);
    assert(name_bytes(RegisterKind::Rdx)[1] == 'd' as u8);
    assert(name_bytes(RegisterKind::Rdx)[2] == 'x' as u8);
    assert(name_bytes(RegisterKind::Rdi).len() == 3);
    assert(name_bytes(RegisterKind::Rdi)[0] == 'r' as u8);
    assert(name_bytes(RegisterKind::Rdi)[1] == 'd' as u8);
    assert(name_bytes(RegisterKind::Rdi)[2] == 'i' as u8);
    assert(name_bytes(RegisterKind::Rsi).len() == 3);
    assert(name_bytes(RegisterKind::Rsi)[0] == 'r' as u8);
    assert(name_bytes(RegisterKind::Rsi)[1] == 's' as u8);
    assert(name_bytes(RegisterKind::Rsi)[2] == 'i' as u8);
    assert(name_bytes(RegisterKind::Rbp).len() == 3);
    assert(name_bytes(RegisterKind::Rbp)[0] == 'r' as u8);
    assert(name_bytes(RegisterKind::Rbp)[1] == 'b' as u8);
    assert(name_bytes(RegisterKind::Rbp)[2] == 'p' as u8);
    assert(name_bytes(RegisterKind::Rsp).len() == 3);
    assert(name_bytes(RegisterKind::Rsp)[0] == 'r' as u8);
    assert(name_bytes(RegisterKind::Rsp)[1] == 's' as u8);
    assert(name_bytes(RegisterKind::Rsp)[2] == 'p' as u8);
    assert(name_bytes(RegisterKind::R8).len() == 2);
    assert(name_bytes(RegisterKind::R8)[0] == 'r' as u8);
    assert(name_bytes(RegisterKind::R8)[1] == '8' as u8);
    assert(name_bytes(RegisterKind::R9).len() == 2);
    assert(name_bytes(RegisterKind::R9)[0] == 'r' as u8);
    assert(name_bytes(RegisterKind::R9)[1] == '9' as u8);
    assert(name_bytes(RegisterKind::R10).len() == 3);
    assert(name_bytes(RegisterKind::R10)[0] == 'r' as u8);
    assert(name_bytes(RegisterKind::R10)[1] == '1' as u8);
    assert(name_bytes(RegisterKind::R10)[2] == '0' as u8);
    assert(name_bytes(RegisterKind::R11).len() == 3);
    assert(name_bytes(RegisterKind::R11)[0] == 'r' as u8);
    assert(name_bytes(RegisterKind::R11)[1] == '1' as u8);
    assert(name_bytes(RegisterKind::R11)[2] == '1' as u8);
    assert(name_bytes(RegisterKind::R12).len() == 3);
    assert(name_bytes(RegisterKind::R12)[0] == 'r' as u8);
    assert(name_bytes(RegisterKind::R12)[1] == '1' as u8);
    assert(name_bytes(RegisterKind::R12)[2] == '2' as u8);
    assert(name_bytes(RegisterKind::R13).len() == 3);
    assert(name_bytes(RegisterKind::R13)[0] == 'r' as u8);
    assert(name_bytes(RegisterKind::R13)[1] == '1' as u8);
    assert(name_bytes(RegisterKind::R13)[2] == '3' as u8);
    assert(name_bytes(RegisterKind::R14).len() == 3);
    assert(name_bytes(RegisterKind::R14)[0] == 'r' as u8);
    assert(name_bytes(RegisterKind::R14)[1] == '1' as u8);
    assert(name_bytes(RegisterKind::R14)[2] == '4' as u8);
    assert(name_bytes(RegisterKind::R15).len() == 3);
    assert(name_bytes(RegisterKind::R15)[0] == 'r' as u8);
    assert(name_bytes(RegisterKind::R15)[1] == '1' as u8);
    assert(name_bytes(RegisterKind::R15)[2] == '5' as u8);
    assert(name_bytes(RegisterKind::Ss).len() == 2);
    assert(name_bytes(RegisterKind::Ss)[0] == 's' as u8);
    assert(name_bytes(RegisterKind::Ss)[1] == 's' as u8);
    assert(name_bytes(RegisterKind::Cs).len() == 2);
    assert(name_bytes(RegisterKind::Cs)[0] == 'c' as u8);
    assert(name_bytes(RegisterKind::Cs)[1] == 's' as u8);
    assert(name_bytes(RegisterKind::Ds).len() == 2);
    assert(name_bytes(RegisterKind::Ds)[0] == 'd' as u8);
    assert(name_bytes(RegisterKind::Ds)[1] == 's' as u8);
    assert(name_bytes(RegisterKind::Es).len() == 2);
    assert(name_bytes(RegisterKind::Es)[0] == 'e' as u8);
    assert(name_bytes(RegisterKind::Es)[1] == 's' as u8);
    assert(name_bytes(RegisterKind::Fs).len() == 2);
    assert(name_bytes(RegisterKind::Fs)[0] == 'f' as u8);
    assert(name_bytes(RegisterKind::Fs)[1] == 's' as u8);
    assert(name_bytes(RegisterKind::Gs).len() == 2);
    assert(name_bytes(RegisterKind::Gs)[0] == 'g' as u8);
    assert(name_bytes(RegisterKind::Gs)[1] == 's' as u8);
    assert(name_bytes(RegisterKind::FsBase).len() == 7);
    assert(name_bytes(RegisterKind::FsBase)[0] == 'f' as u8);
    assert(name_bytes(RegisterKind::FsBase)[1] == 's' as u8);
    assert(name_bytes(RegisterKind::FsBase)[2] == '_' as u8);
    assert(name_bytes(RegisterKind::FsBase)[3] == 'b' as u8);
    assert(name_bytes(RegisterKind::FsBase)[4] == 'a' as u8);
    assert(name_bytes(RegisterKind::FsBase)[5] == 's' as u8);
    assert(name_bytes(RegisterKind::FsBase)[6] == 'e' as u8);
    assert(name_bytes(RegisterKind::GsBase).len() == 7);
    assert(name_bytes(RegisterKind::GsBase)[0] == 'g' as u8);
    assert(name_bytes(RegisterKind::GsBase)[1] == 's' as u8);
    assert(name_bytes(RegisterKind::GsBase)[2] == '_' as u8);
    assert(name_bytes(RegisterKind::GsBase)[3] == 'b' as u8);
    assert(name_bytes(RegisterKind::GsBase)[4] == 'a' as u8);
    assert(name_bytes(RegisterKind::GsBase)[5] == 's' as u8);
    assert(name_bytes(RegisterKind::GsBase)[6] == 'e' as u8);
    assert(name_bytes(RegisterKind::OrigRax).len() == 8);
    assert(name_bytes(RegisterKind::OrigRax)[0] == 'o' as u8);
    assert(name_bytes(RegisterKind::OrigRax)[1] == 'r' as u8);
    assert(name_bytes(RegisterKind::OrigRax)[2] == 'i' as u8);
    assert(name_bytes(RegisterKind::OrigRax)[3] == 'g' as u8);
    assert(name_bytes(RegisterKind::OrigRax)[4] == '_' as u8);
    assert(name_bytes(RegisterKind::OrigRax)[5] == 'r' as u8);
    assert(name_bytes(RegisterKind::OrigRax)[6] == 'a' as u8);
    assert(name_bytes(RegisterKind::OrigRax)[7] == 'x' as u8);
    assert(name_bytes(RegisterKind::Rip).len() == 3);
    assert(name_bytes(RegisterKind::Rip)[0] == 'r' as u8);
    assert(name_bytes(RegisterKind::Rip)[1] == 'i' as u8);
    assert(name_bytes(RegisterKind::Rip)[2] == 'p' as u8);
    assert(name_bytes(RegisterKind::RFlags).len() == 6);
    assert(name_bytes(RegisterKind::RFlags)[0] == 'e' as u8);
    assert(name_bytes(RegisterKind::RFlags)[1] == 'f' as u8);
    assert(name_bytes(RegisterKind::RFlags)[2] == 'l' as u8);
    assert(name_bytes(RegisterKind::RFlags)[3] == 'a' as u8);
    assert(name_bytes(RegisterKind::RFlags)[4] == 'g' as u8);
    assert(name_bytes(RegisterKind::RFlags)[5] == 's' as u8);
}


/// The characters of a register's descriptor name spell, byte for byte,
/// exactly the token that name-based lookup recognizes, so resolving a
/// descriptor's own name finds the same register again.
pub proof fn lemma_descriptor_name_resolves(k: RegisterKind)
    ensures
        encode_utf8(reg_name_chars(k)) == name_bytes(k),
        kind_of_name(encode_utf8(reg_name_chars(k))) == Some(k),
{
    match k {
        RegisterKind::Rax => {
            reveal_strlit("rax");
            let cs = reg_name_chars(k);
            assert(cs.len() == 3);
            assert(is_ascii_chars(cs)) by {
                assert(cs[0] == 'r');
                assert(cs[1] == 'a');
                assert(cs[2] == 'x');
            }
            is_ascii_chars_encode_utf8(cs);
            assert(encode_utf8(cs) =~= name_bytes(k));
        },
        RegisterKind::Rbx => {
            reveal_strlit("rbx");
            let cs = reg_name_chars(k);
            assert(cs.len() == 3);
            assert(is_ascii_chars(cs)) by {
                assert(cs[0] == 'r');
                assert(cs[1] == 'b');
                assert(cs[2] == 'x');
            }
            is_ascii_chars_encode_utf8(cs);
            assert(encode_utf8(cs) =~= name_bytes(k));
        },
        RegisterKind::Rcx => {
            reveal_strlit("rcx");
            let cs = reg_name_chars(k);
            assert(cs.len() == 3);
            assert(is_ascii_chars(cs)) by {
                assert(cs[0] == 'r');
                assert(cs[1] == 'c');
                assert(cs[2] == 'x');
            }
            is_ascii_chars_encode_utf8(cs);
            assert(encode_utf8(cs) =~= name_bytes(k));
        },
        RegisterKind::Rdx => {
            reveal_strlit("rdx");
            let cs = reg_name_chars(k);
            assert(cs.len() == 3);
            assert(is_ascii_chars(cs)) by {
                assert(cs[0] == 'r');
                assert(cs[1] == 'd');
                assert(cs[2] == 'x');
            }
            is_ascii_chars_encode_utf8(cs);
            assert(encode_utf8(cs) =~= name_bytes(k));
        },
        RegisterKind::Rdi => {
            reveal_strlit("rdi");
            let cs = reg_name_chars(k);
            assert(cs.len() == 3);
            assert(is_ascii_chars(cs)) by {
                assert(cs[0] == 'r');
                assert(cs[1] == 'd');
                assert(cs[2] == 'i');
            }
            is_ascii_chars_encode_utf8(cs);
            assert(encode_utf8(cs) =~= name_bytes(k));
        },
        RegisterKind::Rsi => {
            reveal_strlit("rsi");
            let cs = reg_name_chars(k);
            assert(cs.len() == 3);
            assert(is_ascii_chars(cs)) by {
                assert(cs[0] == 'r');
                assert(cs[1] == 's');
                assert(cs[2] == 'i');
            }
            is_ascii_chars_encode_utf8(cs);
            assert(encode_utf8(cs) =~= name_bytes(k));
        },
        RegisterKind::Rbp => {
            reveal_strlit("rbp");
            let cs = reg_name_chars(k);
            assert(cs.len() == 3);
            assert(is_ascii_chars(cs)) by {
                assert(cs[0] == 'r');
                assert(cs[1] == 'b');
                assert(cs[2] == 'p');
            }
            is_ascii_chars_encode_utf8(cs);
            assert(encode_utf8(cs) =~= name_bytes(k));
        },
        RegisterKind::Rsp => {
            reveal_strlit("rsp");
            let cs = reg_name_chars(k);
            assert(cs.len() == 3);
            assert(is_ascii_chars(cs)) by {
                assert(cs[0] == 'r');
                assert(cs[1] == 's');
                assert(cs[2] == 'p');
            }
            is_ascii_chars_encode_utf8(cs);
            assert(encode_utf8(cs) =~= name_bytes(k));
        },
        RegisterKind::R8 => {
            reveal_strlit("r8");
            let cs = reg_name_chars(k);
            assert(cs.len() == 2);
            assert(is_ascii_chars(cs)) by {
                assert(cs[0] == 'r');
                assert(cs[1] == '8');
            }
            is_ascii_chars_encode_utf8(cs);
            assert(encode_utf8(cs) =~= name_bytes(k));
        },
        RegisterKind::R9 => {
            reveal_strlit("r9");
            let cs = reg_name_chars(k);
            assert(cs.len() == 2);
            assert(is_ascii_chars(cs)) by {
                assert(cs[0] == 'r');
                assert(cs[1] == '9');
            }
            is_ascii_chars_encode_utf8(cs);
            assert(encode_utf8(cs) =~= name_bytes(k));
        },
        RegisterKind::R10 => {
            reveal_strlit("r10");
            let cs = reg_name_chars(k);
            assert(cs.len() == 3);
            assert(is_ascii_chars(cs)) by {
                assert(cs[0] == 'r');
                assert(cs[1] == '1');
                assert(cs[2] == '0');
            }
            is_ascii_chars_encode_utf8(cs);
            assert(encode_utf8(cs) =~= name_bytes(k));
        },
        RegisterKind::R11 => {
            reveal_strlit("r11");
            let cs = reg_name_chars(k);
            assert(cs.len() == 3);
            assert(is_ascii_chars(cs)) by {
                assert(cs[0] == 'r');
                assert(cs[1] == '1');
                assert(cs[2] == '1');
            }
            is_ascii_chars_encode_utf8(cs);
            assert(encode_utf8(cs) =~= name_bytes(k));
        },
        RegisterKind::R12 => {
            reveal_strlit("r12");
            let cs = reg_name_chars(k);
            assert(cs.len() == 3);
            assert(is_ascii_chars(cs)) by {
                assert(cs[0] == 'r');
                assert(cs[1] == '1');
                assert(cs[2] == '2');
            }
            is_ascii_chars_encode_utf8(cs);
            assert(encode_utf8(cs) =~= name_bytes(k));
        },
        RegisterKind::R13 => {
            reveal_strlit("r13");
            let cs = reg_name_chars(k);
            assert(cs.len() == 3);
            assert(is_ascii_chars(cs)) by {
                assert(cs[0] == 'r');
                assert(cs[1] == '1');
                assert(cs[2] == '3');
            }
            is_ascii_chars_encode_utf8(cs);
            assert(encode_utf8(cs) =~= name_bytes(k));
        },
        RegisterKind::R14 => {
            reveal_strlit("r14");
            let cs = reg_name_chars(k);
            assert(cs.len() == 3);
            assert(is_ascii_chars(cs)) by {
                assert(cs[0] == 'r');
                assert(cs[1] == '1');
                assert(cs[2] == '4');
            }
            is_ascii_chars_encode_utf8(cs);
            assert(encode_utf8(cs) =~= name_bytes(k));
        },
        RegisterKind::R15 => {
            reveal_strlit("r15");
            let cs = reg_name_chars(k);
            assert(cs.len() == 3);
            assert(is_ascii_chars(cs)) by {
                assert(cs[0] == 'r');
                assert(cs[1] == '1');
                assert(cs[2] == '5');
            }
            is_ascii_chars_encode_utf8(cs);
            assert(encode_utf8(cs) =~= name_bytes(k));
        },
        RegisterKind::Ss => {
            reveal_strlit("ss");
            let cs = reg_name_chars(k);
            assert(cs.len() == 2);
            assert(is_ascii_chars(cs)) by {
                assert(cs[0] == 's');
                assert(cs[1] == 's');
            }
            is_ascii_chars_encode_utf8(cs);
            assert(encode_utf8(cs) =~= name_bytes(k));
        },
        RegisterKind::Cs => {
            reveal_strlit("cs");
            let cs = reg_name_chars(k);
            assert(cs.len() == 2);
            assert(is_ascii_chars(cs)) by {
                assert(cs[0] == 'c');
                assert(cs[1] == 's');
            }
            is_ascii_chars_encode_utf8(cs);
            assert(encode_utf8(cs) =~= name_bytes(k));
        },
        RegisterKind::Ds => {
            reveal_strlit("ds");
            let cs = reg_name_chars(k);
            assert(cs.len() == 2);
            assert(is_ascii_chars(cs)) by {
                assert(cs[0] == 'd');
                assert(cs[1] == 's');
            }
            is_ascii_chars_encode_utf8(cs);
            assert(encode_utf8(cs) =~= name_bytes(k));
        },
        RegisterKind::Es => {
            reveal_strlit("es");
            let cs = reg_name_chars(k);
            assert(cs.len() == 2);
            assert(is_ascii_chars(cs)) by {
                assert(cs[0] == 'e');
                assert(cs[1] == 's');
            }
            is_ascii_chars_encode_utf8(cs);
            assert(encode_utf8(cs) =~= name_bytes(k));
        },
        RegisterKind::Fs => {
            reveal_strlit("fs");
            let cs = reg_name_chars(k);
            assert(cs.len() == 2);
            assert(is_ascii_chars(cs)) by {
                assert(cs[0] == 'f');
                assert(cs[1] == 's');
            }
            is_ascii_chars_encode_utf8(cs);
            assert(encode_utf8(cs) =~= name_bytes(k));
        },
        RegisterKind::Gs => {
            reveal_strlit("gs");
            let cs = reg_name_chars(k);
            assert(cs.len() == 2);
            assert(is_ascii_chars(cs)) by {
                assert(cs[0] == 'g');
                assert(cs[1] == 's');
            }
            is_ascii_chars_encode_utf8(cs);
            assert(encode_utf8(cs) =~= name_bytes(k));
        },
        RegisterKind::FsBase => {
            reveal_strlit("fs_base");
            let cs = reg_name_chars(k);
            assert(cs.len() == 7);
            assert(is_ascii_chars(cs)) by {
                assert(cs[0] == 'f');
                assert(cs[1] == 's');
                assert(cs[2] == '_');
                assert(cs[3] == 'b');
                assert(cs[4] == 'a');
                assert(cs[5] == 's');
                assert(cs[6] == 'e');
            }
            is_ascii_chars_encode_utf8(cs);
            assert(encode_utf8(cs) =~= name_bytes(k));
        },
        RegisterKind::GsBase => {
            reveal_strlit("gs_base");
            let cs = reg_name_chars(k);
            assert(cs.len() == 7);
            assert(is_ascii_chars(cs)) by {
                assert(cs[0] == 'g');
                assert(cs[1] == 's');
                assert(cs[2] == '_');
                assert(cs[3] == 'b');
                assert(cs[4] == 'a');
                assert(cs[5] == 's');
                assert(cs[6] == 'e');
            }
            is_ascii_chars_encode_utf8(cs);
            assert(encode_utf8(cs) =~= name_bytes(k));
        },
        RegisterKind::OrigRax => {
            reveal_strlit("orig_rax");
            let cs = reg_name_chars(k);
            assert(cs.len() == 8);
            assert(is_ascii_chars(cs)) by {
                assert(cs[0] == 'o');
                assert(cs[1] == 'r');
                assert(cs[2] == 'i');
                assert(cs[3] == 'g');
                assert(cs[4] == '_');
                assert(cs[5] == 'r');
                assert(cs[6] == 'a');
                assert(cs[7] == 'x');
            }
            is_ascii_chars_encode_utf8(cs);
            assert(encode_utf8(cs) =~= name_bytes(k));
        },
        RegisterKind::Rip => {
            reveal_strlit("rip");
            let cs = reg_name_chars(k);
            assert(cs.len() == 3);
            assert(is_ascii_chars(cs)) by {
                assert(cs[0] == 'r');
                assert(cs[1] == 'i');
                assert(cs[2] == 'p');
            }
            is_ascii_chars_encode_utf8(cs);
            assert(encode_utf8(cs) =~= name_bytes(k));
        },
        RegisterKind::RFlags => {
            reveal_strlit("eflags");
            let cs = reg_name_chars(k);
            assert(cs.len() == 6);
            assert(is_ascii_chars(cs)) by {
                assert(cs[0] == 'e');
                assert(cs[1] == 'f');
                assert(cs[2] == 'l');
                assert(cs[3] == 'a');
                assert(cs[4] == 'g');
                assert(cs[5] == 's');
            }
            is_ascii_chars_encode_utf8(cs);
            assert(encode_utf8(cs) =~= name_bytes(k));
        },
    }
    lemma_name_lookup_identity(k);
}

/// No debug-info number reaches the two pseudo-registers: they have no
/// canonical number, and number-based lookup never resolves to them.
pub proof fn lemma_pseudo_registers_only_by_name(n: i64)
    ensures
        dwarf_number(RegisterKind::Rip) is None,
        dwarf_number(RegisterKind::OrigRax) is None,
        kind_of_dwarf(n) != Some(RegisterKind::Rip),
        kind_of_dwarf(n) != Some(RegisterKind::OrigRax),
{
}

} // verus!
