//! A verified emulator core for the MOS 6502 microprocessor as it appears in
//! the Nintendo Entertainment System: a fetch-decode-execute engine over a
//! flat 64 KiB memory, a small register file and a status byte.
//!
//! The machine is modelled twice: once as executable code (`cpu`) and once as
//! a mathematical state-transition function (`state`, `semantics`).  Every
//! instruction routine carries a contract that pins its effect on registers,
//! flags and memory to the model, and `laws` proves the arithmetic and flag
//! properties that the model satisfies.
//!
//! Since every verified loop must shrink a measure, the interpreter loop is
//! verified under the precondition that the execution reaches a stopping
//! point (BRK, or an opcode outside the decode table).  The precondition is
//! ghost: the compiled loop behaves the same on any input and simply keeps
//! running on a program that never stops.

pub mod cpu;
pub mod flags;
pub mod laws;
pub mod semantics;
pub mod state;
