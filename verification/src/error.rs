//! The failures that end a run.

use vstd::prelude::*;

verus! {

/// Why a fetch, a decode or an operand read could not be carried out.
#[derive(Clone, Copy, Debug, PartialEq, Eq, Structural)]
pub enum CpuError {
    /// The byte at `address` is the encoding of no instruction.
    UnsupportedOpcode { byte: u8, address: u16 },
    /// A read at `address` lies past the end of the program.
    OutOfBounds { address: u16 },
}

} // verus!
