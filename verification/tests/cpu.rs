use nes_emulator::cpu::{ExecutionState, CPU, MAX_PROGRAM_LEN};
use nes_emulator::error::CpuError;
use nes_emulator::opcode::{AddressingMode, OpCode};
use nes_emulator::status::{NEGATIVE_FLAG, ZERO_FLAG};

fn cpu_with(program_counter: u16, accumulator: u8, register_x: u8, processor_status: u8) -> CPU {
    let mut cpu = CPU::new();
    cpu.program_counter = program_counter;
    cpu.accumulator = accumulator;
    cpu.register_x = register_x;
    cpu.processor_status = processor_status;
    cpu
}

#[test]
fn test_lda() {
    let mut cpu = CPU::new();
    let outcome = cpu.interpret(vec![0xa9, 0x01]);
    assert_eq!(cpu.accumulator, 1);
    assert_eq!(cpu.processor_status & ZERO_FLAG, 0);
    assert_eq!(outcome, Err(CpuError::OutOfBounds { address: 2 }));
}

#[test]
fn test_lda_with_status_zero() {
    let mut cpu = CPU::new();
    let outcome = cpu.interpret(vec![0xa9, 0x00]);
    assert_eq!(cpu.accumulator, 0);
    assert_eq!(cpu.processor_status, 0b0000_0010);
    assert_eq!(outcome, Err(CpuError::OutOfBounds { address: 2 }));
}

#[test]
fn test_lda_with_status_negative() {
    let mut cpu = CPU::new();
    let outcome = cpu.interpret(vec![0xa9, 0x80]);
    assert_eq!(cpu.accumulator, 0x80);
    assert_eq!(cpu.processor_status, 0b1000_0000);
    assert_eq!(outcome, Err(CpuError::OutOfBounds { address: 2 }));
}

#[test]
fn test_5_ops_working_together() {
    let mut cpu = CPU::new();
    let outcome = cpu.interpret(vec![0xa9, 0xc0, 0xaa, 0xe8, 0x00]);

    assert_eq!(cpu.register_x, 0xc1);
    assert_eq!(outcome, Ok(()));
}

#[test]
fn test_inx_overflow() {
    let mut cpu = CPU::new();
    cpu.register_x = 0xff;
    let outcome = cpu.interpret(vec![0xe8, 0xe8, 0x00]);

    assert_eq!(cpu.register_x, 1);
    assert_eq!(outcome, Ok(()));
}

#[test]
fn new_register_file_is_zeroed() {
    let cpu = CPU::new();
    assert_eq!(cpu.program_counter, 0);
    assert_eq!(cpu.stack_pointer, 0);
    assert_eq!(cpu.accumulator, 0);
    assert_eq!(cpu.register_x, 0);
    assert_eq!(cpu.register_y, 0);
    assert_eq!(cpu.processor_status, 0);
}

#[test]
fn flags_follow_every_value_and_keep_reserved_bits() {
    for status in 0..=255u8 {
        for value in 0..=255u8 {
            let mut cpu = cpu_with(7, 3, 4, status);
            cpu.stack_pointer = 5;
            cpu.register_y = 6;
            cpu.update_process_status(value);
            assert_eq!(cpu.processor_status & ZERO_FLAG != 0, value == 0);
            assert_eq!(cpu.processor_status & NEGATIVE_FLAG != 0, value & 0x80 != 0);
            assert_eq!(cpu.processor_status & 0b0111_1101, status & 0b0111_1101);
            assert_eq!(cpu.program_counter, 7);
            assert_eq!(cpu.accumulator, 3);
            assert_eq!(cpu.register_x, 4);
            assert_eq!(cpu.stack_pointer, 5);
            assert_eq!(cpu.register_y, 6);
        }
    }
}

#[test]
fn flag_update_exact_values() {
    let mut cpu = cpu_with(0, 0, 0, 0b0111_1101);
    cpu.update_process_status(0);
    assert_eq!(cpu.processor_status, 0b0111_1111);
    cpu.update_process_status(0x7f);
    assert_eq!(cpu.processor_status, 0b0111_1101);
    cpu.update_process_status(0xff);
    assert_eq!(cpu.processor_status, 0b1111_1101);
    cpu.update_process_status(0xff);
    assert_eq!(cpu.processor_status, 0b1111_1101);
}

#[test]
fn flag_constants() {
    assert_eq!(ZERO_FLAG, 0b0000_0010);
    assert_eq!(NEGATIVE_FLAG, 0b1000_0000);
}

#[test]
fn lda_step_loads_operand_and_advances_by_two() {
    for value in 0..=255u8 {
        let program = vec![0x00, 0xa9, value, 0x00];
        let mut cpu = cpu_with(1, 0x55, 0x66, 0);
        let outcome = cpu.step(&program);
        assert_eq!(outcome, Ok(ExecutionState::Running));
        assert_eq!(cpu.accumulator, value);
        assert_eq!(cpu.program_counter, 3);
        assert_eq!(cpu.register_x, 0x66);
        assert_eq!(cpu.processor_status & ZERO_FLAG != 0, value == 0);
        assert_eq!(cpu.processor_status & NEGATIVE_FLAG != 0, value >= 0x80);
    }
}

#[test]
fn tax_step_copies_accumulator_and_advances_by_one() {
    for value in 0..=255u8 {
        let program = vec![0xaa];
        let mut cpu = cpu_with(0, value, 0x11, 0b0100_0000);
        let outcome = cpu.step(&program);
        assert_eq!(outcome, Ok(ExecutionState::Running));
        assert_eq!(cpu.register_x, value);
        assert_eq!(cpu.accumulator, value);
        assert_eq!(cpu.program_counter, 1);
        assert_eq!(cpu.processor_status & ZERO_FLAG != 0, value == 0);
        assert_eq!(cpu.processor_status & NEGATIVE_FLAG != 0, value >= 0x80);
        assert_eq!(cpu.processor_status & 0b0111_1101, 0b0100_0000);
    }
}

#[test]
fn process_tax_uses_new_value_of_x() {
    let mut cpu = cpu_with(9, 0x90, 0x01, 0);
    cpu.process_tax();
    assert_eq!(cpu.register_x, 0x90);
    assert_eq!(cpu.processor_status, 0b1000_0000);
    assert_eq!(cpu.program_counter, 9);
}

#[test]
fn process_inx_wraps_and_sets_flags() {
    let mut cpu = cpu_with(0, 0, 0xff, 0b1000_0000);
    cpu.process_inx();
    assert_eq!(cpu.register_x, 0);
    assert_eq!(cpu.processor_status, 0b0000_0010);
    cpu.process_inx();
    assert_eq!(cpu.register_x, 1);
    assert_eq!(cpu.processor_status, 0);
    let mut cpu = cpu_with(0, 0, 0x7f, 0);
    cpu.process_inx();
    assert_eq!(cpu.register_x, 0x80);
    assert_eq!(cpu.processor_status, 0b1000_0000);
    assert_eq!(cpu.program_counter, 0);
}

#[test]
fn process_lda_reads_operand_at_counter() {
    let mut cpu = cpu_with(2, 0, 0, 0);
    let outcome = cpu.process_lda(&[1, 2, 0x83]);
    assert_eq!(outcome, Ok(()));
    assert_eq!(cpu.accumulator, 0x83);
    assert_eq!(cpu.program_counter, 3);
    assert_eq!(cpu.processor_status, 0b1000_0000);
}

#[test]
fn process_lda_without_operand_changes_nothing() {
    let mut cpu = cpu_with(3, 0x44, 0x55, 0b0010_0000);
    let outcome = cpu.process_lda(&[1, 2, 3]);
    assert_eq!(outcome, Err(CpuError::OutOfBounds { address: 3 }));
    assert_eq!(cpu, cpu_with(3, 0x44, 0x55, 0b0010_0000));
}

#[test]
fn fetch_reads_and_advances() {
    let mut cpu = CPU::new();
    assert_eq!(cpu.fetch(&[0x10, 0x20]), Ok(0x10));
    assert_eq!(cpu.program_counter, 1);
    assert_eq!(cpu.fetch(&[0x10, 0x20]), Ok(0x20));
    assert_eq!(cpu.program_counter, 2);
    assert_eq!(cpu.fetch(&[0x10, 0x20]), Err(CpuError::OutOfBounds { address: 2 }));
    assert_eq!(cpu.program_counter, 2);
}

#[test]
fn decode_accepts_exactly_the_defined_opcodes() {
    for byte in 0..=255u8 {
        let expected = match byte {
            0xa9 => Some(OpCode::LDA),
            0x00 => Some(OpCode::BRK),
            0xaa => Some(OpCode::TAX),
            0xe8 => Some(OpCode::INX),
            _ => None,
        };
        assert_eq!(OpCode::from_u8(byte), expected);
        match expected {
            Some(op) => assert_eq!(OpCode::decode(byte, 0x1234), Ok(op)),
            None => assert_eq!(
                OpCode::decode(byte, 0x1234),
                Err(CpuError::UnsupportedOpcode { byte, address: 0x1234 })
            ),
        }
    }
}

#[test]
fn encoding_round_trips() {
    for op in [OpCode::LDA, OpCode::BRK, OpCode::TAX, OpCode::INX] {
        assert_eq!(OpCode::from_u8(op.to_u8()), Some(op));
    }
    assert_eq!(OpCode::LDA.to_u8(), 0xa9);
    assert_eq!(OpCode::BRK.to_u8(), 0x00);
    assert_eq!(OpCode::TAX.to_u8(), 0xaa);
    assert_eq!(OpCode::INX.to_u8(), 0xe8);
}

#[test]
fn addressing_modes() {
    assert_eq!(OpCode::LDA.addressing_mode(), AddressingMode::Immediate);
    assert_eq!(OpCode::BRK.addressing_mode(), AddressingMode::Implied);
    assert_eq!(OpCode::TAX.addressing_mode(), AddressingMode::Implied);
    assert_eq!(OpCode::INX.addressing_mode(), AddressingMode::Implied);
}

#[test]
fn unsupported_opcode_is_reported_with_byte_and_address() {
    let mut cpu = CPU::new();
    let outcome = cpu.interpret(vec![0xa9, 0x05, 0xaa, 0x02, 0x00]);
    assert_eq!(outcome, Err(CpuError::UnsupportedOpcode { byte: 0x02, address: 3 }));
    assert_eq!(cpu.accumulator, 5);
    assert_eq!(cpu.register_x, 5);
    assert_eq!(cpu.program_counter, 4);
    assert_eq!(cpu.processor_status, 0);
}

#[test]
fn unsupported_opcode_in_a_single_step() {
    let mut cpu = cpu_with(0, 1, 2, 0b0000_0100);
    let outcome = cpu.step(&[0xff]);
    assert_eq!(outcome, Err(CpuError::UnsupportedOpcode { byte: 0xff, address: 0 }));
    assert_eq!(cpu, cpu_with(1, 1, 2, 0b0000_0100));
}

#[test]
fn empty_program_is_out_of_bounds_at_start() {
    let mut cpu = CPU::new();
    assert_eq!(cpu.interpret(vec![]), Err(CpuError::OutOfBounds { address: 0 }));
    assert_eq!(cpu, CPU::new());
    assert_eq!(cpu.step(&[]), Err(CpuError::OutOfBounds { address: 0 }));
    assert_eq!(cpu, CPU::new());
}

#[test]
fn counter_past_the_end_is_out_of_bounds() {
    let mut cpu = cpu_with(9, 1, 2, 3);
    assert_eq!(cpu.interpret(vec![0x00]), Err(CpuError::OutOfBounds { address: 9 }));
    assert_eq!(cpu, cpu_with(9, 1, 2, 3));
}

#[test]
fn lda_without_operand_is_not_applied() {
    let mut cpu = cpu_with(0, 0x33, 0, 0b1000_0000);
    let outcome = cpu.interpret(vec![0xa9]);
    assert_eq!(outcome, Err(CpuError::OutOfBounds { address: 1 }));
    assert_eq!(cpu, cpu_with(1, 0x33, 0, 0b1000_0000));
}

#[test]
fn load_transfer_break_halts_after_three_steps() {
    let program = vec![0xa9, 0xc0, 0xaa, 0x00];
    let mut cpu = CPU::new();
    assert_eq!(cpu.step(&program), Ok(ExecutionState::Running));
    assert_eq!(cpu.program_counter, 2);
    assert_eq!(cpu.step(&program), Ok(ExecutionState::Running));
    assert_eq!(cpu.program_counter, 3);
    assert_eq!(cpu.step(&program), Ok(ExecutionState::Halted));
    assert_eq!(cpu.program_counter, 4);
    assert_eq!(cpu.register_x, 0xc0);
    assert_eq!(cpu.accumulator, 0xc0);
    assert_eq!(cpu.processor_status, 0b1000_0000);

    let mut whole = CPU::new();
    assert_eq!(whole.interpret(program), Ok(()));
    assert_eq!(whole, cpu);
}

#[test]
fn break_changes_only_the_counter() {
    let mut cpu = cpu_with(1, 0x12, 0x34, 0b0110_0110);
    cpu.stack_pointer = 0xfd;
    cpu.register_y = 0x56;
    assert_eq!(cpu.interpret(vec![0xaa, 0x00, 0xaa]), Ok(()));
    assert_eq!(cpu.program_counter, 2);
    assert_eq!(cpu.accumulator, 0x12);
    assert_eq!(cpu.register_x, 0x34);
    assert_eq!(cpu.register_y, 0x56);
    assert_eq!(cpu.stack_pointer, 0xfd);
    assert_eq!(cpu.processor_status, 0b0110_0110);
}

#[test]
fn execute_dispatches_on_the_instruction() {
    let program = [0xa9, 0x07];
    let mut cpu = cpu_with(1, 0, 0, 0);
    assert_eq!(cpu.execute(OpCode::LDA, &program), Ok(ExecutionState::Running));
    assert_eq!(cpu.accumulator, 7);
    assert_eq!(cpu.program_counter, 2);
    assert_eq!(cpu.execute(OpCode::TAX, &program), Ok(ExecutionState::Running));
    assert_eq!(cpu.register_x, 7);
    assert_eq!(cpu.execute(OpCode::INX, &program), Ok(ExecutionState::Running));
    assert_eq!(cpu.register_x, 8);
    assert_eq!(cpu.execute(OpCode::BRK, &program), Ok(ExecutionState::Halted));
    assert_eq!(cpu.program_counter, 2);
    assert_eq!(
        cpu.execute(OpCode::LDA, &program),
        Err(CpuError::OutOfBounds { address: 2 })
    );
    assert_eq!(cpu.accumulator, 7);
}

#[test]
fn longest_program_runs_to_its_end() {
    let mut program = vec![0xe8u8; MAX_PROGRAM_LEN];
    program[MAX_PROGRAM_LEN - 1] = 0x00;
    let mut cpu = CPU::new();
    assert_eq!(cpu.interpret(program), Ok(()));
    assert_eq!(cpu.program_counter, 0xffff);
    assert_eq!(cpu.register_x, ((MAX_PROGRAM_LEN - 1) % 256) as u8);

    let mut cpu = CPU::new();
    assert_eq!(
        cpu.interpret(vec![0xaa; MAX_PROGRAM_LEN]),
        Err(CpuError::OutOfBounds { address: 0xffff })
    );
    assert_eq!(cpu.program_counter, 0xffff);
}
