//! The command parser: one line of text in, one structured command value
//! out.  Purely functional.  The grammar is line-oriented, one command per
//! line, tokens separated by spaces:
//!
//! ```text
//! continue | c | cont
//! break <addr>                      addr = 0x-prefixed hexadecimal
//! breakpoint (ls|list)
//! breakpoint set <addr>
//! breakpoint unset <num>            num = decimal
//! register (r|read) <name>
//! register (w|write) <name> <decimal-value>
//! ```
//!
//! An unknown top-level token parses as `Command::Unknown`; an unknown
//! breakpoint or register sub-operation parses as the nested `Unknown` of
//! its category, so the dispatcher can report which category failed.  A
//! missing or superfluous argument and a malformed number are parse errors;
//! an unknown register name is a lookup error.

use crate::breakpoint::Location;
use crate::errors::DebugError;
use crate::register::{kind_of_name, name_kind, RegisterKind};
use vstd::prelude::*;
use vstd::string::StringSliceAdditionalSpecFns;

verus! {

/// A breakpoint sub-command.
#[derive(Debug, Clone, PartialEq, Eq)]
pub enum BreakpointCmd {
    /// Show the breakpoint table.
    List,
    /// Set a breakpoint at a location.
    SetAt(Location),
    /// Remove the breakpoint with the given table number.
    Unset(u64),
    /// A sub-operation this grammar does not know.
    Unknown,
}

/// A register sub-command.
#[derive(Debug, Clone, PartialEq, Eq)]
pub enum RegisterCmd {
    /// Read one register.
    Read(RegisterKind),
    /// Write one register.
    Write(RegisterKind, u64),
    /// A sub-operation this grammar does not know.
    Unknown,
}

/// One parsed command line.
#[derive(Debug, Clone, PartialEq, Eq)]
pub enum Command {
    /// Resume the traced process.
    Continue,
    /// A breakpoint operation.
    Breakpoint(BreakpointCmd),
    /// A register operation.
    Register(RegisterCmd),
    /// A top-level token this grammar does not know.
    Unknown,
}

/// The one token separator of the grammar.
pub open spec fn is_space(b: u8) -> bool {
    b == ' ' as u8
}

/// The length of the leading token of `s`: the longest non-space prefix.
pub open spec fn token_len(s: Seq<u8>) -> nat
    decreases s.len(),
{
    if s.len() == 0 || is_space(s[0]) {
        0
    } else {
        (1 + token_len(s.skip(1))) as nat
    }
}

pub proof fn lemma_token_len_le(s: Seq<u8>)
    ensures
        token_len(s) <= s.len(),
    decreases s.len(),
{
    if s.len() != 0 && !is_space(s[0]) {
        lemma_token_len_le(s.skip(1));
    }
}

/// The leading token of `s` is exactly its first `k` bytes when those are
/// non-space and the token ends there (at a space or at the end of `s`).
pub proof fn lemma_token_len_exact(s: Seq<u8>, k: int)
    requires
        0 <= k <= s.len(),
        forall|m: int| 0 <= m < k ==> !is_space(s[m]),
        k == s.len() || is_space(s[k]),
    ensures
        token_len(s) == k,
    decreases k,
{
    if k > 0 {
        lemma_token_len_exact(s.skip(1), k - 1);
    }
}

/// The words of `s`: the maximal non-space runs, in order.
pub open spec fn split_ws(s: Seq<u8>) -> Seq<Seq<u8>>
    decreases s.len(),
    via split_ws_decreases
{
    if s.len() == 0 {
        Seq::empty()
    } else if is_space(s[0]) {
        split_ws(s.skip(1))
    } else {
        seq![s.take(token_len(s) as int)] + split_ws(s.skip(token_len(s) as int))
    }
}

#[via_fn]
proof fn split_ws_decreases(s: Seq<u8>) {
    lemma_token_len_le(s);
}

/// The views of a vector of byte tokens.
pub open spec fn token_views(toks: Seq<Vec<u8>>) -> Seq<Seq<u8>> {
    toks.map_values(|t: Vec<u8>| t@)
}

/// Split a line into its space-separated tokens.
#[verifier::loop_isolation(false)]
pub fn tokenize(s: &[u8]) -> (r: Vec<Vec<u8>>)
    ensures
        token_views(r@) == split_ws(s@),
{
    let mut toks: Vec<Vec<u8>> = Vec::new();
    let mut i: usize = 0;
    proof {
        assert(s@.skip(0) =~= s@);
        assert(token_views(toks@) + split_ws(s@) =~= split_ws(s@));
    }
    while i < s.len()
        invariant
            i <= s@.len(),
            token_views(toks@) + split_ws(s@.skip(i as int)) == split_ws(s@),
        decreases s@.len() - i,
    {
        if s[i] == ' ' as u8 {
            proof {
                assert(s@.skip(i as int).skip(1) =~= s@.skip(i as int + 1));
            }
            i += 1;
        } else {
            let ghost u = s@.skip(i as int);
            let start = i;
            let mut tok: Vec<u8> = Vec::new();
            while i < s.len() && s[i] != ' ' as u8
                invariant
                    start <= i <= s@.len(),
                    tok@ == s@.subrange(start as int, i as int),
                    forall|m: int| start <= m < i ==> !is_space(s@[m]),
                decreases s@.len() - i,
            {
                tok.push(s[i]);
                i += 1;
            }
            proof {
                let k = i - start;
                assert(forall|m: int| 0 <= m < k ==> u[m] == s@[start + m]);
                lemma_token_len_exact(u, k);
                assert(u.take(k) =~= s@.subrange(start as int, i as int));
                assert(u.skip(k) =~= s@.skip(i as int));
                assert(token_views(toks@.push(tok)) =~= token_views(toks@).push(tok@));
                assert(token_views(toks@).push(tok@) + split_ws(s@.skip(i as int)) =~= token_views(
                    toks@,
                ) + split_ws(u));
            }
            toks.push(tok);
        }
    }
    proof {
        assert(s@.skip(i as int) =~= Seq::<u8>::empty());
        assert(token_views(toks@) + split_ws(s@.skip(i as int)) =~= token_views(toks@));
    }
    toks
}

/// Whether a token spells a keyword.
pub open spec fn tok_is(t: Seq<u8>, kw: &str) -> bool {
    t == kw.spec_bytes()
}

/// Compare a token against a keyword, byte for byte.
#[verifier::loop_isolation(false)]
fn tok_eq(t: &[u8], kw: &str) -> (r: bool)
    ensures
        r == tok_is(t@, kw),
{
    let k = kw.as_bytes();
    if t.len() != k.len() {
        return false;
    }
    let mut i: usize = 0;
    while i < t.len()
        invariant
            i <= t@.len(),
            t@.len() == k@.len(),
            forall|m: int| 0 <= m < i ==> t@[m] == k@[m],
        decreases t.len() - i,
    {
        if t[i] != k[i] {
            return false;
        }
        i += 1;
    }
    proof {
        assert(t@ =~= k@);
    }
    true
}

pub open spec fn is_dec_digit(b: u8) -> bool {
    '0' as u8 <= b && b <= '9' as u8
}

pub open spec fn dec_digit_val(b: u8) -> nat {
    (b - '0' as u8) as nat
}

pub open spec fn all_dec_digits(t: Seq<u8>) -> bool {
    forall|m: int| 0 <= m < t.len() ==> is_dec_digit(t[m])
}

/// The number a string of decimal digits spells.
pub open spec fn dec_value(t: Seq<u8>) -> nat
    decreases t.len(),
{
    if t.len() == 0 {
        0
    } else {
        dec_value(t.drop_last()) * 10 + dec_digit_val(t.last())
    }
}

/// A decimal argument: one or more decimal digits whose value fits in a
/// machine word.
pub open spec fn parse_dec_spec(t: Seq<u8>) -> Option<u64> {
    if t.len() > 0 && all_dec_digits(t) && dec_value(t) <= u64::MAX {
        Some(dec_value(t) as u64)
    } else {
        None
    }
}

proof fn lemma_dec_value_grows(v: nat, d: nat)
    requires
        v > u64::MAX,
    ensures
        v * 10 + d > u64::MAX,
{
    assert(v * 10 >= v) by (nonlinear_arith)
        requires
            v >= 0,
    ;
}

/// Parse a decimal argument.
#[verifier::loop_isolation(false)]
pub fn parse_dec(t: &[u8]) -> (r: Option<u64>)
    ensures
        r == parse_dec_spec(t@),
{
    if t.len() == 0 {
        return None;
    }
    let mut acc: u64 = 0;
    let mut overflow = false;
    let mut i: usize = 0;
    while i < t.len()
        invariant
            i <= t@.len(),
            forall|m: int| 0 <= m < i ==> is_dec_digit(t@[m]),
            !overflow ==> acc == dec_value(t@.take(i as int)),
            overflow ==> dec_value(t@.take(i as int)) > u64::MAX,
        decreases t.len() - i,
    {
        let c = t[i];
        if c < '0' as u8 || c > '9' as u8 {
            return None;
        }
        let d = c - '0' as u8;
        proof {
            assert(t@.take(i as int + 1).drop_last() =~= t@.take(i as int));
            assert(t@.take(i as int + 1).last() == t@[i as int]);
            if overflow {
                lemma_dec_value_grows(dec_value(t@.take(i as int)), dec_digit_val(t@[i as int]));
            }
        }
        if !overflow {
            match acc.checked_mul(10) {
                Some(m) => match m.checked_add(d as u64) {
                    Some(a) => {
                        acc = a;
                    },
                    None => {
                        overflow = true;
                    },
                },
                None => {
                    proof {
                        lemma_dec_value_grows(dec_value(t@.take(i as int)) * 10, dec_digit_val(
                            t@[i as int],
                        ));
                    }
                    overflow = true;
                },
            }
        }
        i += 1;
    }
    proof {
        assert(t@.take(t@.len() as int) =~= t@);
    }
    if overflow {
        None
    } else {
        Some(acc)
    }
}

pub open spec fn is_hex_digit(b: u8) -> bool {
    ('0' as u8 <= b && b <= '9' as u8) || ('a' as u8 <= b && b <= 'f' as u8) || ('A' as u8 <= b
        && b <= 'F' as u8)
}

pub open spec fn hex_digit_val(b: u8) -> nat {
    if '0' as u8 <= b && b <= '9' as u8 {
        (b - '0' as u8) as nat
    } else if 'a' as u8 <= b && b <= 'f' as u8 {
        (b - 'a' as u8 + 10) as nat
    } else {
        (b - 'A' as u8 + 10) as nat
    }
}

pub open spec fn all_hex_digits(t: Seq<u8>) -> bool {
    forall|m: int| 0 <= m < t.len() ==> is_hex_digit(t[m])
}

/// The number a string of hexadecimal digits spells.
pub open spec fn hex_value(t: Seq<u8>) -> nat
    decreases t.len(),
{
    if t.len() == 0 {
        0
    } else {
        hex_value(t.drop_last()) * 16 + hex_digit_val(t.last())
    }
}

/// An address argument: `0x` followed by one or more hexadecimal digits
/// whose value fits in a machine word.
pub open spec fn parse_addr_spec(t: Seq<u8>) -> Option<u64> {
    if t.len() > 2 && t[0] == '0' as u8 && t[1] == 'x' as u8 && all_hex_digits(t.skip(2))
        && hex_value(t.skip(2)) <= u64::MAX {
        Some(hex_value(t.skip(2)) as u64)
    } else {
        None
    }
}

proof fn lemma_hex_value_grows(v: nat, d: nat)
    requires
        v > u64::MAX,
    ensures
        v * 16 + d > u64::MAX,
{
    assert(v * 16 >= v) by (nonlinear_arith)
        requires
            v >= 0,
    ;
}

/// Parse an address argument.
#[verifier::loop_isolation(false)]
pub fn parse_addr(t: &[u8]) -> (r: Option<u64>)
    ensures
        r == parse_addr_spec(t@),
{
    if t.len() <= 2 || t[0] != '0' as u8 || t[1] != 'x' as u8 {
        return None;
    }
    let ghost h = t@.skip(2);
    let mut acc: u64 = 0;
    let mut overflow = false;
    let mut i: usize = 2;
    while i < t.len()
        invariant
            2 <= i <= t@.len(),
            forall|m: int| 0 <= m < i - 2 ==> is_hex_digit(h[m]),
            !overflow ==> acc == hex_value(h.take(i - 2)),
            overflow ==> hex_value(h.take(i - 2)) > u64::MAX,
        decreases t.len() - i,
    {
        let c = t[i];
        let d: u8 = if c >= '0' as u8 && c <= '9' as u8 {
            c - '0' as u8
        } else if c >= 'a' as u8 && c <= 'f' as u8 {
            c - 'a' as u8 + 10
        } else if c >= 'A' as u8 && c <= 'F' as u8 {
            c - 'A' as u8 + 10
        } else {
            proof {
                assert(h[i - 2] == t@[i as int]);
            }
            return None;
        };
        proof {
            assert(h[i - 2] == t@[i as int]);
            assert(h.take(i - 2 + 1).drop_last() =~= h.take(i - 2));
            assert(h.take(i - 2 + 1).last() == h[i - 2]);
            if overflow {
                lemma_hex_value_grows(hex_value(h.take(i - 2)), hex_digit_val(h[i - 2]));
            }
        }
        if !overflow {
            match acc.checked_mul(16) {
                Some(m) => match m.checked_add(d as u64) {
                    Some(a) => {
                        acc = a;
                    },
                    None => {
                        overflow = true;
                    },
                },
                None => {
                    proof {
                        lemma_hex_value_grows(hex_value(h.take(i - 2)) * 16, hex_digit_val(
                            h[i - 2],
                        ));
                    }
                    overflow = true;
                },
            }
        }
        i += 1;
    }
    proof {
        assert(h.take(t@.len() - 2) =~= h);
    }
    if overflow {
        None
    } else {
        Some(acc)
    }
}

/// What one line of command text means.  Everything `parse_line` returns is
/// decided here, token by token, over the words of the line.
pub open spec fn parse_spec(s: Seq<u8>) -> Result<Command, DebugError> {
    let toks = split_ws(s);
    if toks.len() == 0 {
        Ok(Command::Unknown)
    } else if tok_is(toks[0], "continue") || tok_is(toks[0], "cont") || tok_is(toks[0], "c") {
        if toks.len() == 1 {
            Ok(Command::Continue)
        } else {
            Err(DebugError::Parse)
        }
    } else if tok_is(toks[0], "break") {
        if toks.len() != 2 {
            Err(DebugError::Parse)
        } else {
            match parse_addr_spec(toks[1]) {
                Some(a) => Ok(Command::Breakpoint(BreakpointCmd::SetAt(Location::Address(a)))),
                None => Err(DebugError::Parse),
            }
        }
    } else if tok_is(toks[0], "breakpoint") {
        if toks.len() < 2 {
            Err(DebugError::Parse)
        } else if tok_is(toks[1], "ls") || tok_is(toks[1], "list") {
            if toks.len() == 2 {
                Ok(Command::Breakpoint(BreakpointCmd::List))
            } else {
                Err(DebugError::Parse)
            }
        } else if tok_is(toks[1], "set") {
            if toks.len() != 3 {
                Err(DebugError::Parse)
            } else {
                match parse_addr_spec(toks[2]) {
                    Some(a) => Ok(Command::Breakpoint(BreakpointCmd::SetAt(Location::Address(a)))),
                    None => Err(DebugError::Parse),
                }
            }
        } else if tok_is(toks[1], "unset") {
            if toks.len() != 3 {
                Err(DebugError::Parse)
            } else {
                match parse_dec_spec(toks[2]) {
                    Some(n) => Ok(Command::Breakpoint(BreakpointCmd::Unset(n))),
                    None => Err(DebugError::Parse),
                }
            }
        } else {
            Ok(Command::Breakpoint(BreakpointCmd::Unknown))
        }
    } else if tok_is(toks[0], "register") {
        if toks.len() < 2 {
            Err(DebugError::Parse)
        } else if tok_is(toks[1], "r") || tok_is(toks[1], "read") {
            if toks.len() != 3 {
                Err(DebugError::Parse)
            } else {
                match kind_of_name(toks[2]) {
                    Some(k) => Ok(Command::Register(RegisterCmd::Read(k))),
                    None => Err(DebugError::Lookup),
                }
            }
        } else if tok_is(toks[1], "w") || tok_is(toks[1], "write") {
            if toks.len() != 4 {
                Err(DebugError::Parse)
            } else {
                match kind_of_name(toks[2]) {
                    Some(k) => match parse_dec_spec(toks[3]) {
                        Some(v) => Ok(Command::Register(RegisterCmd::Write(k, v))),
                        None => Err(DebugError::Parse),
                    },
                    None => Err(DebugError::Lookup),
                }
            }
        } else {
            Ok(Command::Register(RegisterCmd::Unknown))
        }
    } else {
        Ok(Command::Unknown)
    }
}

/// Parse one line of command text.
pub fn parse_line(line: &str) -> (r: Result<Command, DebugError>)
    ensures
        r == parse_spec(line.spec_bytes()),
{
    let toks = tokenize(line.as_bytes());
    if toks.len() == 0 {
        return Ok(Command::Unknown);
    }
    let t0 = toks[0].as_slice();
    if tok_eq(t0, "continue") || tok_eq(t0, "cont") || tok_eq(t0, "c") {
        if toks.len() == 1 {
            Ok(Command::Continue)
        } else {
            Err(DebugError::Parse)
        }
    } else if tok_eq(t0, "break") {
        if toks.len() != 2 {
            Err(DebugError::Parse)
        } else {
            match parse_addr(toks[1].as_slice()) {
                Some(a) => Ok(Command::Breakpoint(BreakpointCmd::SetAt(Location::Address(a)))),
                None => Err(DebugError::Parse),
            }
        }
    } else if tok_eq(t0, "breakpoint") {
        if toks.len() < 2 {
            return Err(DebugError::Parse);
        }
        let t1 = toks[1].as_slice();
        if tok_eq(t1, "ls") || tok_eq(t1, "list") {
            if toks.len() == 2 {
                Ok(Command::Breakpoint(BreakpointCmd::List))
            } else {
                Err(DebugError::Parse)
            }
        } else if tok_eq(t1, "set") {
            if toks.len() != 3 {
                Err(DebugError::Parse)
            } else {
                match parse_addr(toks[2].as_slice()) {
                    Some(a) => Ok(Command::Breakpoint(BreakpointCmd::SetAt(Location::Address(a)))),
                    None => Err(DebugError::Parse),
                }
            }
        } else if tok_eq(t1, "unset") {
            if toks.len() != 3 {
                Err(DebugError::Parse)
            } else {
                match parse_dec(toks[2].as_slice()) {
                    Some(n) => Ok(Command::Breakpoint(BreakpointCmd::Unset(n))),
                    None => Err(DebugError::Parse),
                }
            }
        } else {
            Ok(Command::Breakpoint(BreakpointCmd::Unknown))
        }
    } else if tok_eq(t0, "register") {
        if toks.len() < 2 {
            return Err(DebugError::Parse);
        }
        let t1 = toks[1].as_slice();
        if tok_eq(t1, "r") || tok_eq(t1, "read") {
            if toks.len() != 3 {
                Err(DebugError::Parse)
            } else {
                match name_kind(toks[2].as_slice()) {
                    Some(k) => Ok(Command::Register(RegisterCmd::Read(k))),
                    None => Err(DebugError::Lookup),
                }
            }
        } else if tok_eq(t1, "w") || tok_eq(t1, "write") {
            if toks.len() != 4 {
                Err(DebugError::Parse)
            } else {
                match name_kind(toks[2].as_slice()) {
                    Some(k) => match parse_dec(toks[3].as_slice()) {
                        Some(v) => Ok(Command::Register(RegisterCmd::Write(k, v))),
                        None => Err(DebugError::Parse),
                    },
                    None => Err(DebugError::Lookup),
                }
            }
        } else {
            Ok(Command::Register(RegisterCmd::Unknown))
        }
    } else {
        Ok(Command::Unknown)
    }
}

} // verus!
