//! The register file and the fetch-decode-execute loop.
//!
//! Each executable function is specified by a spec function of the same
//! shape on [`CPU`] values: what one fetch, one instruction, one step and a
//! whole run make of a register file and a program.

use vstd::prelude::*;
use crate::error::CpuError;
use crate::opcode::OpCode;
use crate::status::{negative_flag, reserved_bits, status_after, zero_flag};
use crate::status::{NEGATIVE_FLAG, ZERO_FLAG};

verus! {

/// The longest program that the 16-bit program counter can walk: the counter
/// must still hold the address after the last byte.
pub const MAX_PROGRAM_LEN: usize = 0xFFFF;

/// Whether the executor goes on after a step.
#[derive(Clone, Copy, Debug, PartialEq, Eq, Structural)]
pub enum ExecutionState {
    /// The next step fetches the next instruction.
    Running,
    /// A Break was executed: the run is over.
    Halted,
}

/// The register file of the processor.
#[allow(clippy::upper_case_acronyms)]
#[derive(Debug, PartialEq, Eq, Structural)]
pub struct CPU {
    /// Address of the next byte to fetch.
    pub program_counter: u16,
    /// Offset into the stack page. No instruction of the core uses it.
    pub stack_pointer: u8,
    /// The accumulator.
    pub accumulator: u8,
    /// Index register X.
    pub register_x: u8,
    /// Index register Y. No instruction of the core uses it.
    pub register_y: u8,
    /// The condition flags: bit 1 is Zero, bit 7 is Negative, the others are
    /// reserved and kept as they are.
    pub processor_status: u8,
}

impl CPU {
    /// Whether the program counter can address all of `program`.
    pub open spec fn addressable(program: Seq<u8>) -> bool {
        program.len() <= MAX_PROGRAM_LEN
    }

    /// This register file with Zero and Negative recomputed from `value`.
    pub open spec fn with_flags_from(self, value: u8) -> CPU {
        CPU { processor_status: status_after(self.processor_status, value), ..self }
    }

    /// This register file with the program counter one byte further.
    pub open spec fn advanced(self) -> CPU {
        CPU { program_counter: (self.program_counter + 1) as u16, ..self }
    }

    /// Reading the byte at the program counter: the byte, and the counter
    /// advanced past it; or, past the end of `program`, the error and the
    /// register file as it was.
    pub open spec fn fetch_spec(self, program: Seq<u8>) -> (CPU, Result<u8, CpuError>) {
        if self.program_counter < program.len() {
            (self.advanced(), Ok(program[self.program_counter as int]))
        } else {
            (self, Err(CpuError::OutOfBounds { address: self.program_counter }))
        }
    }

    /// Load-Accumulator-Immediate: the operand byte goes to the accumulator
    /// and the flags follow it. Without an operand byte nothing changes.
    pub open spec fn lda_spec(self, program: Seq<u8>) -> (CPU, Result<(), CpuError>) {
        match self.fetch_spec(program) {
            (fetched, Ok(value)) => (
                CPU { accumulator: value, ..fetched }.with_flags_from(value),
                Ok(()),
            ),
            (_, Err(error)) => (self, Err(error)),
        }
    }

    /// Transfer-Accumulator-to-X: register X takes the accumulator's value
    /// and the flags follow it.
    pub open spec fn tax_spec(self) -> CPU {
        CPU { register_x: self.accumulator, ..self }.with_flags_from(self.accumulator)
    }

    /// The successor of `value` modulo 256.
    pub open spec fn incremented(value: u8) -> u8 {
        if value == u8::MAX {
            0
        } else {
            (value + 1) as u8
        }
    }

    /// Increment-X: register X goes up by one modulo 256 and the flags
    /// follow it.
    pub open spec fn inx_spec(self) -> CPU {
        let value = CPU::incremented(self.register_x);
        CPU { register_x: value, ..self }.with_flags_from(value)
    }

    /// The effect of instruction `op`, the program counter standing just
    /// behind its opcode.
    pub open spec fn execute_spec(self, op: OpCode, program: Seq<u8>) -> (
        CPU,
        Result<ExecutionState, CpuError>,
    ) {
        match op {
            OpCode::LDA => match self.lda_spec(program) {
                (next, Ok(_)) => (next, Ok(ExecutionState::Running)),
                (next, Err(error)) => (next, Err(error)),
            },
            OpCode::BRK => (self, Ok(ExecutionState::Halted)),
            OpCode::TAX => (self.tax_spec(), Ok(ExecutionState::Running)),
            OpCode::INX => (self.inx_spec(), Ok(ExecutionState::Running)),
        }
    }

    /// One step: fetch the opcode and advance, decode it, execute the
    /// instruction. A failed fetch leaves the register file as it was; a
    /// failed decode or operand read leaves the counter just behind the
    /// opcode and everything else as it was.
    pub open spec fn step_spec(self, program: Seq<u8>) -> (CPU, Result<ExecutionState, CpuError>) {
        match self.fetch_spec(program) {
            (fetched, Ok(byte)) => match OpCode::decode_at(byte, self.program_counter) {
                Ok(op) => fetched.execute_spec(op, program),
                Err(error) => (fetched, Err(error)),
            },
            (_, Err(error)) => (self, Err(error)),
        }
    }

    /// A run: steps until a Break halts it or a step fails.
    pub open spec fn run_spec(self, program: Seq<u8>) -> (CPU, Result<(), CpuError>)
        decreases program.len() - self.program_counter,
        when CPU::addressable(program)
    {
        match self.step_spec(program) {
            (next, Ok(ExecutionState::Running)) => next.run_spec(program),
            (next, Ok(ExecutionState::Halted)) => (next, Ok(())),
            (next, Err(error)) => (next, Err(error)),
        }
    }

    /// A register file with every register, the counter and the flags at zero.
    pub fn new() -> (cpu: CPU)
        ensures
            cpu.program_counter == 0,
            cpu.stack_pointer == 0,
            cpu.accumulator == 0,
            cpu.register_x == 0,
            cpu.register_y == 0,
            cpu.processor_status == 0,
    {
        CPU {
            program_counter: 0,
            stack_pointer: 0,
            accumulator: 0,
            register_x: 0,
            register_y: 0,
            processor_status: 0,
        }
    }

    /// Recomputes Zero and Negative from `result_register`, the value that
    /// an instruction has just written, and keeps every other bit.
    pub fn update_process_status(&mut self, result_register: u8)
        ensures
            *final(self) == old(self).with_flags_from(result_register),
            zero_flag(final(self).processor_status) <==> result_register == 0,
            negative_flag(final(self).processor_status) <==> result_register & 0x80 != 0,
            reserved_bits(final(self).processor_status) == reserved_bits(
                old(self).processor_status,
            ),
    {
        let before = self.processor_status;
        let with_zero = if result_register == 0 {
            before | ZERO_FLAG
        } else {
            before & !ZERO_FLAG
        };
        let with_negative = if result_register & NEGATIVE_FLAG == NEGATIVE_FLAG {
            with_zero | NEGATIVE_FLAG
        } else {
            with_zero & !NEGATIVE_FLAG
        };
        self.processor_status = with_negative;
        proof {
            assert(with_negative == status_after(before, result_register)) by (bit_vector)
                requires
                    with_zero == (if result_register == 0 {
                        before | ZERO_FLAG
                    } else {
                        before & !ZERO_FLAG
                    }),
                    with_negative == (if result_register & NEGATIVE_FLAG == NEGATIVE_FLAG {
                        with_zero | NEGATIVE_FLAG
                    } else {
                        with_zero & !NEGATIVE_FLAG
                    }),
            ;
            crate::status::lemma_status_after(before, result_register);
        }
    }

    /// Transfer-Accumulator-to-X: copies the accumulator to register X and
    /// sets the flags from the new value of X.
    pub fn process_tax(&mut self)
        ensures
            *final(self) == old(self).tax_spec(),
            final(self).register_x == old(self).accumulator,
            final(self).program_counter == old(self).program_counter,
            zero_flag(final(self).processor_status) <==> final(self).register_x == 0,
            negative_flag(final(self).processor_status) <==> final(self).register_x & 0x80 != 0,
            reserved_bits(final(self).processor_status) == reserved_bits(
                old(self).processor_status,
            ),
    {
        self.register_x = self.accumulator;
        self.update_process_status(self.register_x);
    }

    /// Increment-X: adds one to register X, wrapping from 0xFF to 0x00, and
    /// sets the flags from the new value of X.
    pub fn process_inx(&mut self)
        ensures
            *final(self) == old(self).inx_spec(),
            final(self).register_x as int == (old(self).register_x + 1) % 256,
            final(self).program_counter == old(self).program_counter,
            zero_flag(final(self).processor_status) <==> final(self).register_x == 0,
            negative_flag(final(self).processor_status) <==> final(self).register_x & 0x80 != 0,
            reserved_bits(final(self).processor_status) == reserved_bits(
                old(self).processor_status,
            ),
    {
        self.register_x = self.register_x.wrapping_add(1);
        self.update_process_status(self.register_x);
    }

    /// Reads the byte at the program counter and advances the counter past
    /// it. Past the end of `program` it fails and changes nothing.
    pub fn fetch(&mut self, program: &[u8]) -> (fetched: Result<u8, CpuError>)
        requires
            CPU::addressable(program@),
        ensures
            (*final(self), fetched) == old(self).fetch_spec(program@),
            fetched is Ok <==> old(self).program_counter < program@.len(),
            fetched matches Ok(byte) ==> byte == program@[old(self).program_counter as int]
                && final(self).program_counter == old(self).program_counter + 1,
            fetched matches Err(error) ==> *final(self) == *old(self) && error == (
            CpuError::OutOfBounds { address: old(self).program_counter }),
    {
        let address = self.program_counter;
        if (address as usize) < program.len() {
            let byte = program[address as usize];
            self.program_counter = address + 1;
            Ok(byte)
        } else {
            Err(CpuError::OutOfBounds { address })
        }
    }

    /// Load-Accumulator-Immediate: fetches the operand byte at the program
    /// counter into the accumulator and sets the flags from it. Without an
    /// operand byte it fails and changes nothing.
    pub fn process_lda(&mut self, program: &[u8]) -> (loaded: Result<(), CpuError>)
        requires
            CPU::addressable(program@),
        ensures
            (*final(self), loaded) == old(self).lda_spec(program@),
            loaded is Ok <==> old(self).program_counter < program@.len(),
            loaded is Ok ==> {
                &&& final(self).accumulator == program@[old(self).program_counter as int]
                &&& final(self).program_counter == old(self).program_counter + 1
                &&& (zero_flag(final(self).processor_status) <==> final(self).accumulator == 0)
                &&& (negative_flag(final(self).processor_status) <==> final(self).accumulator
                    & 0x80 != 0)
                &&& reserved_bits(final(self).processor_status) == reserved_bits(
                    old(self).processor_status,
                )
            },
            loaded matches Err(error) ==> *final(self) == *old(self) && error == (
            CpuError::OutOfBounds { address: old(self).program_counter }),
    {
        match self.fetch(program) {
            Ok(value) => {
                self.accumulator = value;
                self.update_process_status(self.accumulator);
                Ok(())
            },
            Err(error) => Err(error),
        }
    }

    /// Executes instruction `op`, whose opcode has just been fetched. Only a
    /// Break halts; only a missing operand fails, and then nothing changes.
    pub fn execute(&mut self, op: OpCode, program: &[u8]) -> (outcome: Result<
        ExecutionState,
        CpuError,
    >)
        requires
            CPU::addressable(program@),
        ensures
            (*final(self), outcome) == old(self).execute_spec(op, program@),
            outcome == Ok::<ExecutionState, CpuError>(ExecutionState::Halted) <==> op
                == OpCode::BRK,
            outcome is Err <==> op == OpCode::LDA && old(self).program_counter >= program@.len(),
            outcome is Ok ==> final(self).program_counter == old(self).program_counter
                + op.mode().operand_bytes(),
            outcome is Err ==> *final(self) == *old(self),
            final(self).stack_pointer == old(self).stack_pointer,
            final(self).register_y == old(self).register_y,
            reserved_bits(final(self).processor_status) == reserved_bits(
                old(self).processor_status,
            ),
    {
        match op {
            OpCode::LDA => match self.process_lda(program) {
                Ok(()) => Ok(ExecutionState::Running),
                Err(error) => Err(error),
            },
            OpCode::BRK => Ok(ExecutionState::Halted),
            OpCode::TAX => {
                self.process_tax();
                Ok(ExecutionState::Running)
            },
            OpCode::INX => {
                self.process_inx();
                Ok(ExecutionState::Running)
            },
        }
    }

    /// One step of the executor: fetches the opcode at the program counter,
    /// advances past it, decodes it and executes the instruction.
    ///
    /// It fails with `OutOfBounds` where the opcode or an operand lies past
    /// the end of `program`, and with `UnsupportedOpcode` where the byte
    /// fetched encodes no instruction. Registers and flags are then as they
    /// were; the counter has moved past the opcode if that was read.
    pub fn step(&mut self, program: &[u8]) -> (outcome: Result<ExecutionState, CpuError>)
        requires
            CPU::addressable(program@),
        ensures
            (*final(self), outcome) == old(self).step_spec(program@),
            old(self).program_counter >= program@.len() ==> *final(self) == *old(self) && outcome
                == Err::<ExecutionState, CpuError>(
                CpuError::OutOfBounds { address: old(self).program_counter },
            ),
            old(self).program_counter < program@.len() ==> {
                let address = old(self).program_counter;
                let byte = program@[address as int];
                match OpCode::decode_spec(byte) {
                    None => *final(self) == old(self).advanced() && outcome == Err::<
                        ExecutionState,
                        CpuError,
                    >(CpuError::UnsupportedOpcode { byte, address }),
                    Some(op) => op.encoding() == byte && (*final(self), outcome)
                        == old(self).advanced().execute_spec(op, program@),
                }
            },
            outcome is Ok ==> old(self).program_counter < final(self).program_counter
                <= program@.len(),
            outcome == Ok::<ExecutionState, CpuError>(ExecutionState::Halted) ==> program@[old(
                self,
            ).program_counter as int] == OpCode::BRK.encoding(),
            final(self).stack_pointer == old(self).stack_pointer,
            final(self).register_y == old(self).register_y,
            reserved_bits(final(self).processor_status) == reserved_bits(
                old(self).processor_status,
            ),
    {
        let address = self.program_counter;
        let byte = match self.fetch(program) {
            Ok(byte) => byte,
            Err(error) => {
                return Err(error);
            },
        };
        match OpCode::decode(byte, address) {
            Ok(op) => self.execute(op, program),
            Err(error) => Err(error),
        }
    }

    /// Runs `program` from the program counter until a Break halts the run
    /// or a step fails, and leaves in the register file what the steps
    /// before have made of it.
    ///
    /// `Ok` means that a Break was executed. A program that ends without one
    /// ends in `OutOfBounds` at the address behind its last byte.
    pub fn interpret(&mut self, program: Vec<u8>) -> (outcome: Result<(), CpuError>)
        requires
            CPU::addressable(program@),
        ensures
            (*final(self), outcome) == old(self).run_spec(program@),
            outcome is Ok ==> old(self).program_counter < final(self).program_counter
                <= program@.len() && program@[final(self).program_counter - 1]
                == OpCode::BRK.encoding(),
            outcome matches Err(CpuError::OutOfBounds { address }) ==> address >= program@.len()
                && address >= old(self).program_counter && (final(self).program_counter
                == address),
            outcome matches Err(CpuError::UnsupportedOpcode { byte, address }) ==> address
                < program@.len() && address >= old(self).program_counter && program@[address as int]
                == byte && !OpCode::is_defined(byte) && final(self).program_counter == address
                + 1,
            final(self).stack_pointer == old(self).stack_pointer,
            final(self).register_y == old(self).register_y,
            reserved_bits(final(self).processor_status) == reserved_bits(
                old(self).processor_status,
            ),
    {
        loop
            invariant
                CPU::addressable(program@),
                self.run_spec(program@) == old(self).run_spec(program@),
                self.program_counter >= old(self).program_counter,
                self.stack_pointer == old(self).stack_pointer,
                self.register_y == old(self).register_y,
                reserved_bits(self.processor_status) == reserved_bits(
                    old(self).processor_status,
                ),
            decreases program@.len() - self.program_counter,
        {
            match self.step(program.as_slice()) {
                Ok(ExecutionState::Running) => {},
                Ok(ExecutionState::Halted) => {
                    return Ok(());
                },
                Err(error) => {
                    return Err(error);
                },
            }
        }
    }
}

} // verus!
