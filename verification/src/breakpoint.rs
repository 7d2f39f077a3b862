//! Software breakpoints: a breakpoint patches the first byte of the
//! instruction at its address with the trap opcode and remembers the byte it
//! overwrote, so that disabling restores the traced process's memory exactly.

use crate::errors::DebugError;
use crate::trace;
use vstd::prelude::*;

verus! {

/// The single-byte opcode that triggers a synchronous trace stop when the
/// traced process executes it.
pub const TRAP_OPCODE: u8 = 0xcc;

/// Where a breakpoint is anchored.  Only `Address` can be resolved by this
/// core; function and line locations would need a symbol table and are
/// rejected when a breakpoint is set.
#[derive(Debug, Clone, PartialEq, Eq, Hash)]
pub enum Location {
    /// An absolute address in the traced process's address space.
    Address(u64),
    /// A function, by name (unresolved in this core).
    Function(String),
    /// A source file and line number (unresolved in this core).
    Line(String, u64),
}

/// The low byte of a machine word.
pub open spec fn low_byte(w: u64) -> u8 {
    (w & 0xff) as u8
}

/// The word with its low byte replaced by `b` and all other bytes unchanged.
pub open spec fn with_low_byte(w: u64, b: u8) -> u64 {
    (w & 0xffff_ffff_ffff_ff00) | (b as u64)
}

/// Patching any byte value into a word and then patching the word's saved
/// low byte back restores the word exactly.  With `b` the trap opcode this
/// is the enable/disable round trip, and it holds also when the original
/// low byte happens to equal the trap opcode itself.
pub proof fn lemma_patch_restore_round_trip(w: u64, b: u8)
    ensures
        with_low_byte(with_low_byte(w, b), low_byte(w)) == w,
{
    assert((((w & 0xffff_ffff_ffff_ff00) | (b as u64)) & 0xffff_ffff_ffff_ff00) | (((w
        & 0xff) as u8) as u64) == w) by (bit_vector);
}

/// One software breakpoint in one traced process.  `original_byte` is
/// meaningful only while `enabled` is true: it then holds the single byte
/// that the trap opcode overwrote at the breakpoint address.
#[derive(Debug, Clone, PartialEq, Eq)]
pub struct Breakpoint {
    pub pid: i32,
    pub location: Location,
    pub enabled: bool,
    pub original_byte: u8,
}

impl Breakpoint {
    /// A breakpoint this core can act on: one anchored at an address, whose
    /// saved byte is cleared whenever the breakpoint is disabled (the byte
    /// is meaningful only while the trap opcode is in place).
    pub open spec fn wf(self) -> bool {
        &&& self.location is Address
        &&& !self.enabled ==> self.original_byte == 0
    }

    pub open spec fn spec_address(self) -> u64 {
        self.location->Address_0
    }

    /// A fresh breakpoint starts disabled, with no saved byte.
    pub fn new(pid: i32, location: Location) -> (r: Breakpoint)
        ensures
            r == (Breakpoint { pid, location, enabled: false, original_byte: 0 }),
    {
        Breakpoint { pid, location, enabled: false, original_byte: 0 }
    }

    pub fn address(&self) -> (r: u64)
        requires
            self.wf(),
        ensures
            r == self.spec_address(),
    {
        match &self.location {
            Location::Address(a) => *a,
            _ => unreached(),
        }
    }

    /// The word to write back when arming the breakpoint inside `word`, the
    /// word currently at its address, together with the byte to save.
    /// Arming an already-enabled breakpoint is rejected: it would overwrite
    /// the saved original byte with the trap opcode itself and make the
    /// original instruction unrecoverable.
    pub fn enable_patch(&self, word: u64) -> (r: Result<(u64, u8), DebugError>)
        ensures
            self.enabled ==> r == Err::<(u64, u8), DebugError>(DebugError::AlreadyEnabled),
            !self.enabled ==> r == Ok::<(u64, u8), DebugError>(
                (with_low_byte(word, TRAP_OPCODE), low_byte(word)),
            ),
    {
        if self.enabled {
            return Err(DebugError::AlreadyEnabled);
        }
        let patched = (word & 0xffff_ffff_ffff_ff00) | (TRAP_OPCODE as u64);
        let saved = (word & 0xff) as u8;
        Ok((patched, saved))
    }

    /// The word to write back when disarming the breakpoint inside `word`:
    /// the saved original byte replaces the low byte.  Disabling a disabled
    /// breakpoint changes nothing.
    pub fn disable_patch(&self, word: u64) -> (r: u64)
        ensures
            r == if self.enabled {
                with_low_byte(word, self.original_byte)
            } else {
                word
            },
    {
        if self.enabled {
            (word & 0xffff_ffff_ffff_ff00) | (self.original_byte as u64)
        } else {
            word
        }
    }

    /// Record that the trap opcode is now in place and `saved` was the byte
    /// it overwrote.
    pub fn commit_enable(&mut self, saved: u8)
        ensures
            *final(self) == (Breakpoint { enabled: true, original_byte: saved, ..*old(self) }),
    {
        self.enabled = true;
        self.original_byte = saved;
    }

    /// Record that the original byte is back in place.
    pub fn commit_disable(&mut self)
        ensures
            *final(self) == (Breakpoint { enabled: false, original_byte: 0, ..*old(self) }),
    {
        self.enabled = false;
        self.original_byte = 0;
    }

    /// Arm the breakpoint in the traced process: read the word at the
    /// address, save its low byte, write the word back with the trap opcode
    /// in the low byte.  On any failure the breakpoint is unchanged and the
    /// traced process's memory has not been patched.
    pub fn enable(&mut self) -> (r: Result<(), DebugError>)
        requires
            old(self).wf(),
        ensures
            old(self).enabled ==> r == Err::<(), DebugError>(DebugError::AlreadyEnabled),
            !old(self).enabled && r is Err ==> r == Err::<(), DebugError>(DebugError::Trace),
            r is Err ==> *final(self) == *old(self),
            r is Ok ==> *final(self) == (Breakpoint {
                enabled: true,
                original_byte: final(self).original_byte,
                ..*old(self)
            }),
    {
        if self.enabled {
            return Err(DebugError::AlreadyEnabled);
        }
        let addr = self.address();
        let word = match trace::peek_word(self.pid, addr) {
            Ok(w) => w,
            Err(e) => return Err(e),
        };
        let (patched, saved) = match self.enable_patch(word) {
            Ok(p) => p,
            Err(_) => unreached(),
        };
        match trace::poke_word(self.pid, addr, patched) {
            Ok(()) => (),
            Err(e) => return Err(e),
        }
        self.commit_enable(saved);
        Ok(())
    }

    /// Disarm the breakpoint in the traced process: read the current word at
    /// the address and write it back with the saved original byte in the low
    /// byte.  A disabled breakpoint is left alone; on a trace failure the
    /// breakpoint is unchanged.
    pub fn disable(&mut self) -> (r: Result<(), DebugError>)
        requires
            old(self).wf(),
        ensures
            !old(self).enabled ==> r is Ok && *final(self) == *old(self),
            r is Err ==> r == Err::<(), DebugError>(DebugError::Trace),
            r is Err ==> *final(self) == *old(self),
            r is Ok ==> *final(self) == (Breakpoint {
                enabled: false,
                original_byte: 0,
                ..*old(self)
            }),
    {
        if !self.enabled {
            return Ok(());
        }
        let addr = self.address();
        let word = match trace::peek_word(self.pid, addr) {
            Ok(w) => w,
            Err(e) => return Err(e),
        };
        let restored = self.disable_patch(word);
        match trace::poke_word(self.pid, addr, restored) {
            Ok(()) => (),
            Err(e) => return Err(e),
        }
        self.commit_disable();
        Ok(())
    }
}

} // verus!
