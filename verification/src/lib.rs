//! Core of an interactive debugger for a single traced process: software
//! breakpoints by opcode patching, typed access to the traced CPU registers,
//! a line-oriented command parser, and the controller that sequences
//! stop/continue cycles.  The interactive shell and the launcher sit outside
//! this crate; everything here is driven through plain values.

pub mod breakpoint;
pub mod debugger;
pub mod errors;
pub mod parser;
pub mod register;
mod trace;
