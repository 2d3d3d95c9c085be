//! The instruction core of a MOS 6502-family processor: a register file with
//! its status flags, an opcode decoder, and a fetch-decode-execute loop over a
//! program held as a sequence of bytes.
//!
//! Every function carries a contract over the spec functions of [`cpu::CPU`],
//! and the general properties of the machine are proved in [`laws`].

pub mod cpu;
pub mod error;
pub mod laws;
pub mod opcode;
pub mod status;
