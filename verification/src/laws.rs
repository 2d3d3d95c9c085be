//! Properties of the machine that hold of every register file and program,
//! stated over the spec functions that the contracts of [`CPU`] use.

use vstd::prelude::*;
use crate::cpu::{ExecutionState, CPU};
use crate::error::CpuError;
use crate::opcode::OpCode;
use crate::status::{lemma_status_after, negative_flag, reserved_bits, zero_flag};

verus! {

/// The value that instruction `op` has written, read from the register file
/// `after` it: the accumulator for a load, register X for a transfer or an
/// increment. A Break writes none.
pub open spec fn written_value(op: OpCode, after: CPU) -> Option<u8> {
    match op {
        OpCode::LDA => Some(after.accumulator),
        OpCode::TAX => Some(after.register_x),
        OpCode::INX => Some(after.register_x),
        OpCode::BRK => None,
    }
}

/// Recomputing the flags from `value` sets Zero exactly when `value` is zero
/// and Negative exactly when bit 7 of `value` is set; every other bit of the
/// status byte, and every register, stays as it was.
pub proof fn law_flags_from_value(cpu: CPU, value: u8)
    ensures
        zero_flag(cpu.with_flags_from(value).processor_status) <==> value == 0,
        negative_flag(cpu.with_flags_from(value).processor_status) <==> value & 0x80 != 0,
        reserved_bits(cpu.with_flags_from(value).processor_status) == reserved_bits(
            cpu.processor_status,
        ),
        cpu.with_flags_from(value) == (CPU {
            processor_status: cpu.with_flags_from(value).processor_status,
            ..cpu
        }),
{
    lemma_status_after(cpu.processor_status, value);
}

/// Recomputing the flags twice from the same value is recomputing them once.
pub proof fn law_flags_idempotent(cpu: CPU, value: u8)
    ensures
        cpu.with_flags_from(value).with_flags_from(value) == cpu.with_flags_from(value),
{
    let once = cpu.with_flags_from(value);
    lemma_status_after(cpu.processor_status, value);
    lemma_status_after(once.processor_status, value);
}

/// After a step that executes an instruction which writes a register, the
/// flags describe the value written: Zero is set exactly when it is zero,
/// Negative exactly when its bit 7 is set, and the other status bits are
/// those from before the step.
pub proof fn law_flags_follow_written_register(cpu: CPU, program: Seq<u8>, op: OpCode, value: u8)
    requires
        CPU::addressable(program),
        cpu.program_counter < program.len(),
        program[cpu.program_counter as int] == op.encoding(),
        cpu.step_spec(program).1 is Ok,
        written_value(op, cpu.step_spec(program).0) == Some(value),
    ensures
        zero_flag(cpu.step_spec(program).0.processor_status) <==> value == 0,
        negative_flag(cpu.step_spec(program).0.processor_status) <==> value & 0x80 != 0,
        reserved_bits(cpu.step_spec(program).0.processor_status) == reserved_bits(
            cpu.processor_status,
        ),
{
    OpCode::lemma_decode_inverts_encoding(op);
    lemma_status_after(cpu.processor_status, value);
}

/// A step on a Load-Accumulator-Immediate opcode that is followed by the
/// operand `value` puts `value` in the accumulator, moves the program
/// counter on by two and leaves the other registers alone.
pub proof fn law_load_accumulator(cpu: CPU, program: Seq<u8>, value: u8)
    requires
        CPU::addressable(program),
        cpu.program_counter + 1 < program.len(),
        program[cpu.program_counter as int] == OpCode::LDA.encoding(),
        program[cpu.program_counter + 1] == value,
    ensures
        cpu.step_spec(program).1 == Ok::<ExecutionState, CpuError>(ExecutionState::Running),
        cpu.step_spec(program).0.accumulator == value,
        cpu.step_spec(program).0.program_counter == cpu.program_counter + 2,
        cpu.step_spec(program).0.register_x == cpu.register_x,
        cpu.step_spec(program).0.register_y == cpu.register_y,
        cpu.step_spec(program).0.stack_pointer == cpu.stack_pointer,
{
    OpCode::lemma_decode_inverts_encoding(OpCode::LDA);
}

/// A step on a Load-Accumulator-Immediate opcode that ends the program fails
/// at the address of the missing operand; the program counter stands there
/// and nothing else has changed.
pub proof fn law_load_without_operand(cpu: CPU, program: Seq<u8>)
    requires
        CPU::addressable(program),
        cpu.program_counter + 1 == program.len(),
        program[cpu.program_counter as int] == OpCode::LDA.encoding(),
    ensures
        cpu.step_spec(program) == (
            cpu.advanced(),
            Err::<ExecutionState, CpuError>(
                CpuError::OutOfBounds { address: (cpu.program_counter + 1) as u16 },
            ),
        ),
{
    OpCode::lemma_decode_inverts_encoding(OpCode::LDA);
}

/// A step on a Transfer-Accumulator-to-X opcode puts in register X the value
/// that the accumulator had, moves the program counter on by one and leaves
/// the accumulator and the other registers alone.
pub proof fn law_transfer_to_x(cpu: CPU, program: Seq<u8>)
    requires
        CPU::addressable(program),
        cpu.program_counter < program.len(),
        program[cpu.program_counter as int] == OpCode::TAX.encoding(),
    ensures
        cpu.step_spec(program).1 == Ok::<ExecutionState, CpuError>(ExecutionState::Running),
        cpu.step_spec(program).0.register_x == cpu.accumulator,
        cpu.step_spec(program).0.program_counter == cpu.program_counter + 1,
        cpu.step_spec(program).0.accumulator == cpu.accumulator,
        cpu.step_spec(program).0.register_y == cpu.register_y,
        cpu.step_spec(program).0.stack_pointer == cpu.stack_pointer,
{
    OpCode::lemma_decode_inverts_encoding(OpCode::TAX);
}

/// A step on an Increment-X opcode puts in register X its successor modulo
/// 256, moves the program counter on by one and leaves the other registers
/// alone.
pub proof fn law_increment_x(cpu: CPU, program: Seq<u8>)
    requires
        CPU::addressable(program),
        cpu.program_counter < program.len(),
        program[cpu.program_counter as int] == OpCode::INX.encoding(),
    ensures
        cpu.step_spec(program).1 == Ok::<ExecutionState, CpuError>(ExecutionState::Running),
        cpu.step_spec(program).0.register_x as int == (cpu.register_x + 1) % 256,
        cpu.step_spec(program).0.program_counter == cpu.program_counter + 1,
        cpu.step_spec(program).0.accumulator == cpu.accumulator,
        cpu.step_spec(program).0.register_y == cpu.register_y,
        cpu.step_spec(program).0.stack_pointer == cpu.stack_pointer,
{
    OpCode::lemma_decode_inverts_encoding(OpCode::INX);
}

/// A step on a Break opcode halts the executor with the program counter just
/// past the opcode and nothing else changed.
pub proof fn law_break_halts(cpu: CPU, program: Seq<u8>)
    requires
        CPU::addressable(program),
        cpu.program_counter < program.len(),
        program[cpu.program_counter as int] == OpCode::BRK.encoding(),
    ensures
        cpu.step_spec(program) == (
            cpu.advanced(),
            Ok::<ExecutionState, CpuError>(ExecutionState::Halted),
        ),
        cpu.run_spec(program) == (cpu.advanced(), Ok::<(), CpuError>(())),
{
    OpCode::lemma_decode_inverts_encoding(OpCode::BRK);
}

/// A byte encodes an instruction exactly when it is one of the four
/// encodings, and decoding any other byte fails with the error that names
/// the byte and its address.
pub proof fn law_undefined_opcode_is_rejected(byte: u8, address: u16)
    ensures
        OpCode::is_defined(byte) <==> byte == 0xa9 || byte == 0x00 || byte == 0xaa || byte == 0xe8,
        !OpCode::is_defined(byte) ==> OpCode::decode_at(byte, address) == Err::<OpCode, CpuError>(
            CpuError::UnsupportedOpcode { byte, address },
        ),
        OpCode::is_defined(byte) ==> OpCode::decode_at(byte, address) is Ok,
{
    if byte == 0xa9 {
        OpCode::lemma_decode_inverts_encoding(OpCode::LDA);
    } else if byte == 0x00 {
        OpCode::lemma_decode_inverts_encoding(OpCode::BRK);
    } else if byte == 0xaa {
        OpCode::lemma_decode_inverts_encoding(OpCode::TAX);
    } else if byte == 0xe8 {
        OpCode::lemma_decode_inverts_encoding(OpCode::INX);
    }
}

/// A step on a byte that encodes no instruction fails with
/// `UnsupportedOpcode`, which names the byte and the address it was fetched
/// from; the program counter stands behind the byte and nothing else has
/// changed.
pub proof fn law_step_on_undefined_opcode(cpu: CPU, program: Seq<u8>)
    requires
        CPU::addressable(program),
        cpu.program_counter < program.len(),
        !OpCode::is_defined(program[cpu.program_counter as int]),
    ensures
        cpu.step_spec(program) == (
            cpu.advanced(),
            Err::<ExecutionState, CpuError>(
                CpuError::UnsupportedOpcode {
                    byte: program[cpu.program_counter as int],
                    address: cpu.program_counter,
                },
            ),
        ),
        cpu.run_spec(program) == (
            cpu.advanced(),
            Err::<(), CpuError>(
                CpuError::UnsupportedOpcode {
                    byte: program[cpu.program_counter as int],
                    address: cpu.program_counter,
                },
            ),
        ),
{
}

/// A step with the program counter at or past the end of the program fails
/// with `OutOfBounds` at that address and changes nothing, and so does a run
/// from there.
pub proof fn law_fetch_past_end(cpu: CPU, program: Seq<u8>)
    requires
        CPU::addressable(program),
        cpu.program_counter >= program.len(),
    ensures
        cpu.step_spec(program) == (
            cpu,
            Err::<ExecutionState, CpuError>(CpuError::OutOfBounds { address: cpu.program_counter }),
        ),
        cpu.run_spec(program) == (
            cpu,
            Err::<(), CpuError>(CpuError::OutOfBounds { address: cpu.program_counter }),
        ),
{
}

/// A step that fails applies no instruction in part: the register file is as
/// it was, but for the program counter where the opcode had been read.
pub proof fn law_failed_step_keeps_registers(cpu: CPU, program: Seq<u8>)
    requires
        CPU::addressable(program),
        cpu.step_spec(program).1 is Err,
    ensures
        cpu.step_spec(program).0 == cpu || cpu.step_spec(program).0 == cpu.advanced(),
{
}

/// A step that succeeds moves the program counter on by the opcode and the
/// operand bytes of its instruction, and never past the end of the program.
pub proof fn law_step_consumes_instruction(cpu: CPU, program: Seq<u8>, op: OpCode)
    requires
        CPU::addressable(program),
        cpu.program_counter < program.len(),
        program[cpu.program_counter as int] == op.encoding(),
        cpu.step_spec(program).1 is Ok,
    ensures
        cpu.step_spec(program).0.program_counter == cpu.program_counter + 1
            + op.mode().operand_bytes(),
        cpu.step_spec(program).0.program_counter <= program.len(),
{
    OpCode::lemma_decode_inverts_encoding(op);
}

/// A run is its first step followed by the run from where that step ended.
pub proof fn law_run_unfolds(cpu: CPU, program: Seq<u8>)
    requires
        CPU::addressable(program),
        cpu.step_spec(program).1 == Ok::<ExecutionState, CpuError>(ExecutionState::Running),
    ensures
        cpu.run_spec(program) == cpu.step_spec(program).0.run_spec(program),
{
}

/// However a run ends, the program counter has not moved back, and the stack
/// pointer, register Y and the reserved status bits are as they were. A run
/// that halts stands just past a Break opcode; one that runs out of bytes
/// fails at the program counter, at or past the end of the program; one that
/// meets a byte which encodes no instruction fails at that byte, with the
/// program counter just past it.
pub proof fn law_run_outcome(cpu: CPU, program: Seq<u8>)
    requires
        CPU::addressable(program),
    ensures
        cpu.run_spec(program).0.program_counter >= cpu.program_counter,
        cpu.run_spec(program).0.stack_pointer == cpu.stack_pointer,
        cpu.run_spec(program).0.register_y == cpu.register_y,
        reserved_bits(cpu.run_spec(program).0.processor_status) == reserved_bits(
            cpu.processor_status,
        ),
        match cpu.run_spec(program).1 {
            Ok(_) => {
                let end = cpu.run_spec(program).0.program_counter;
                cpu.program_counter < end <= program.len() && program[end - 1]
                    == OpCode::BRK.encoding()
            },
            Err(CpuError::OutOfBounds { address }) => {
                address == cpu.run_spec(program).0.program_counter && address >= program.len()
            },
            Err(CpuError::UnsupportedOpcode { byte, address }) => {
                &&& address + 1 == cpu.run_spec(program).0.program_counter
                &&& cpu.program_counter <= address < program.len()
                &&& program[address as int] == byte
                &&& !OpCode::is_defined(byte)
            },
        },
    decreases program.len() - cpu.program_counter,
{
    let (next, outcome) = cpu.step_spec(program);
    lemma_status_after(cpu.processor_status, next.accumulator);
    lemma_status_after(cpu.processor_status, next.register_x);
    if outcome == Ok::<ExecutionState, CpuError>(ExecutionState::Running) {
        law_run_outcome(next, program);
    }
}

} // verus!
