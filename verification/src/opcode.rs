//! Instruction identities and their encodings.
//!
//! [`OpCode::encoding`] is the one table that maps an instruction to its byte;
//! decoding is stated, and proved, as its inverse.

use vstd::prelude::*;
use crate::error::CpuError;

verus! {

/// The instructions that the core executes.
#[allow(clippy::upper_case_acronyms)]
#[derive(Clone, Copy, Debug, PartialEq, Eq, Structural)]
pub enum OpCode {
    /// Load the accumulator with the byte that follows the opcode.
    LDA,
    /// Break: halt the run.
    BRK,
    /// Transfer the accumulator to register X.
    TAX,
    /// Increment register X, wrapping from 0xFF to 0x00.
    INX,
}

/// How an instruction finds its operand.
#[derive(Clone, Copy, Debug, PartialEq, Eq, Structural)]
pub enum AddressingMode {
    /// The instruction names its registers itself and reads no operand.
    Implied,
    /// The operand is the byte that follows the opcode.
    Immediate,
}

impl AddressingMode {
    /// How many bytes after the opcode the operand takes.
    pub open spec fn operand_bytes(self) -> nat {
        match self {
            AddressingMode::Implied => 0,
            AddressingMode::Immediate => 1,
        }
    }
}

impl OpCode {
    /// The byte that encodes this instruction.
    pub open spec fn encoding(self) -> u8 {
        match self {
            OpCode::LDA => 0xa9,
            OpCode::BRK => 0x00,
            OpCode::TAX => 0xaa,
            OpCode::INX => 0xe8,
        }
    }

    /// The addressing mode of this instruction.
    pub open spec fn mode(self) -> AddressingMode {
        match self {
            OpCode::LDA => AddressingMode::Immediate,
            OpCode::BRK => AddressingMode::Implied,
            OpCode::TAX => AddressingMode::Implied,
            OpCode::INX => AddressingMode::Implied,
        }
    }

    /// Whether `byte` encodes some instruction.
    pub open spec fn is_defined(byte: u8) -> bool {
        exists|op: OpCode| op.encoding() == byte
    }

    /// The instruction that `byte` encodes, if there is one.
    pub open spec fn decode_spec(byte: u8) -> Option<OpCode> {
        if OpCode::is_defined(byte) {
            Some(choose|op: OpCode| op.encoding() == byte)
        } else {
            None
        }
    }

    /// What decoding the byte fetched at `address` yields: the instruction, or
    /// the error that names the byte and where it stood.
    pub open spec fn decode_at(byte: u8, address: u16) -> Result<OpCode, CpuError> {
        match OpCode::decode_spec(byte) {
            Some(op) => Ok(op),
            None => Err(CpuError::UnsupportedOpcode { byte, address }),
        }
    }

    /// No two instructions share an encoding, so a byte decodes to the
    /// instruction it encodes and to no other.
    pub proof fn lemma_decode_inverts_encoding(op: OpCode)
        ensures
            OpCode::is_defined(op.encoding()),
            OpCode::decode_spec(op.encoding()) == Some(op),
    {
        let byte = op.encoding();
        assert(OpCode::is_defined(byte));
        let chosen = choose|other: OpCode| other.encoding() == byte;
        assert(chosen.encoding() == byte);
        assert(chosen == op);
    }

    /// The addressing mode of this instruction.
    pub fn addressing_mode(self) -> (mode: AddressingMode)
        ensures
            mode == self.mode(),
    {
        match self {
            OpCode::LDA => AddressingMode::Immediate,
            OpCode::BRK | OpCode::TAX | OpCode::INX => AddressingMode::Implied,
        }
    }

    /// The byte that encodes this instruction.
    pub fn to_u8(self) -> (byte: u8)
        ensures
            byte == self.encoding(),
    {
        match self {
            OpCode::LDA => 0xa9,
            OpCode::BRK => 0x00,
            OpCode::TAX => 0xaa,
            OpCode::INX => 0xe8,
        }
    }

    /// Decodes one byte: `Some` of the instruction whose encoding it is, `None`
    /// where it encodes none.
    pub fn from_u8(opcode: u8) -> (decoded: Option<OpCode>)
        ensures
            decoded == OpCode::decode_spec(opcode),
            decoded is Some <==> OpCode::is_defined(opcode),
            decoded matches Some(op) ==> op.encoding() == opcode,
    {
        let decoded = match opcode {
            0xa9 => Some(OpCode::LDA),
            0x00 => Some(OpCode::BRK),
            0xaa => Some(OpCode::TAX),
            0xe8 => Some(OpCode::INX),
            _ => None,
        };
        proof {
            match decoded {
                Some(op) => {
                    OpCode::lemma_decode_inverts_encoding(op);
                },
                None => {
                    assert forall|op: OpCode| op.encoding() != opcode by {
                        match op {
                            OpCode::LDA => {},
                            OpCode::BRK => {},
                            OpCode::TAX => {},
                            OpCode::INX => {},
                        }
                    }
                },
            }
        }
        decoded
    }

    /// Decodes the byte fetched at `address`. It fails exactly on a byte that
    /// encodes no instruction, with an error that carries both.
    pub fn decode(opcode: u8, address: u16) -> (decoded: Result<OpCode, CpuError>)
        ensures
            decoded == OpCode::decode_at(opcode, address),
            decoded is Ok <==> OpCode::is_defined(opcode),
            decoded matches Ok(op) ==> op.encoding() == opcode,
            decoded is Err ==> decoded == Err::<OpCode, CpuError>(
                CpuError::UnsupportedOpcode { byte: opcode, address },
            ),
    {
        match OpCode::from_u8(opcode) {
            Some(op) => Ok(op),
            None => Err(CpuError::UnsupportedOpcode { byte: opcode, address }),
        }
    }
}

} // verus!
