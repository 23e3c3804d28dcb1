use dielectric::addressing_modes::AddressingMode;
use dielectric::cpu::{Cpu, ExecutionError};
use dielectric::decoder::{decode, BitPattern};
use dielectric::opcode::{LeaOpcode, MoveOpcode, Opcode, PopOpcode, PushOpcode};
use dielectric::opcode_size::OpcodeSize;
use dielectric::register::Register;
use dielectric::status_register::Flags;

const ALL_REGISTERS: [Register; 32] = [
    Register::D0,
    Register::D1,
    Register::D2,
    Register::D3,
    Register::D4,
    Register::D5,
    Register::D6,
    Register::D7,
    Register::D8,
    Register::D9,
    Register::D10,
    Register::D11,
    Register::D12,
    Register::D13,
    Register::D14,
    Register::D15,
    Register::A0,
    Register::A1,
    Register::A2,
    Register::A3,
    Register::A4,
    Register::A5,
    Register::A6,
    Register::A7,
    Register::A8,
    Register::A9,
    Register::A10,
    Register::A11,
    Register::A12,
    Register::A13,
    Register::A14,
    Register::A15,
];

fn data_registers() -> Vec<Register> {
    ALL_REGISTERS[..16].to_vec()
}

fn address_registers() -> Vec<Register> {
    ALL_REGISTERS[16..].to_vec()
}

fn get_decoder_result(pattern: u32) -> Opcode {
    let cpu = Cpu::new();
    cpu.decoder(pattern)
}

fn simple_move_expect(mode: AddressingMode, dest: Register, src: Register, size: OpcodeSize) -> Opcode {
    Opcode::Move(MoveOpcode { addr_mode: mode, destination: dest, source: src, offset: 0, size })
}

fn generate_opcode(
    opcode: u32,
    mode: AddressingMode,
    dest: Register,
    src: Option<Register>,
    offset: u32,
    size: OpcodeSize,
) -> u32 {
    let size: u32 = size.into();
    let mode: u32 = mode.into();
    let src: u32 = if let Some(src) = src { src.into() } else { 0x00 };
    let dest: u32 = dest.into();
    (size << 30) | (offset << 24) | (src << 19) | (dest << 14) | (mode << 8) | opcode
}

fn index(reg: Register) -> usize {
    let i: u32 = reg.into();
    i as usize
}

#[test]
fn core_test_move_dword_registers() {
    for dest in &ALL_REGISTERS {
        for src in &ALL_REGISTERS {
            let opcode = generate_opcode(0x01, AddressingMode::Atomic, *dest, Some(*src), 0, OpcodeSize::Dword);
            let result = get_decoder_result(opcode);
            let expected = simple_move_expect(AddressingMode::Atomic, *dest, *src, OpcodeSize::Dword);
            assert_eq!(result, expected, "Failed {:?} {:?}", result, expected)
        }
    }
}

#[test]
fn cpu_test_move_dword_registers() {
    for dest in &ALL_REGISTERS {
        for src in &ALL_REGISTERS {
            let word = simple_move_expect(AddressingMode::Atomic, *dest, *src, OpcodeSize::Dword).encode();
            let result = get_decoder_result(word);
            let expected = simple_move_expect(AddressingMode::Atomic, *dest, *src, OpcodeSize::Dword);
            assert_eq!(result, expected, "Failed {:?} {:?}", result, expected)
        }
    }
}

#[test]
fn test_move_dword_registers() {
    for dest in &ALL_REGISTERS {
        for src in &ALL_REGISTERS {
            let expected = simple_move_expect(AddressingMode::Atomic, *dest, *src, OpcodeSize::Dword);
            let result = get_decoder_result(expected.encode());
            assert_eq!(result, expected, "Failed {:?} {:?}", result, expected)
        }
    }
}

#[test]
fn test_move_memory_to_dword_registers() {
    for address_register in &address_registers() {
        let expected = simple_move_expect(AddressingMode::MemorySrc, Register::D0, *address_register, OpcodeSize::Dword);
        let result = get_decoder_result(expected.encode());
        assert_eq!(result, expected, "Failed {:?}, {:?}", result, expected);
    }
}

fn memory_source_case(size: OpcodeSize, expected: u32) {
    for data_reg in data_registers() {
        for src_reg in address_registers() {
            let opcode = generate_opcode(0x01, AddressingMode::MemorySrc, data_reg, Some(src_reg), 0, size);
            let mut cpu = Cpu::new();
            cpu.register_file.registers[index(src_reg)] = 0x7000BA5;
            let opcode = cpu.decoder(opcode);
            cpu.memory.write_byte(0x7000BA5, 0xAA);
            cpu.memory.write_byte(0x7000BA6, 0xBB);
            cpu.memory.write_byte(0x7000BA7, 0xCC);
            cpu.memory.write_byte(0x7000BA8, 0xDD);
            assert_eq!(cpu.execution_stage(opcode), Ok(()));
            assert_eq!(cpu.register_file.registers[index(data_reg)], expected);
        }
    }
}

#[test]
fn test_move_memory_dword_execution() {
    memory_source_case(OpcodeSize::Dword, 0xAABBCCDD);
}

#[test]
fn test_move_memory_word_execution() {
    memory_source_case(OpcodeSize::Word, 0x0000AABB);
}

#[test]
fn test_move_memory_byte_execution() {
    memory_source_case(OpcodeSize::Byte, 0x000000AA);
}

#[test]
fn test_move_dword_registers_execution() {
    for dest_reg in ALL_REGISTERS {
        for src_reg in ALL_REGISTERS {
            let opcode = generate_opcode(0x01, AddressingMode::Atomic, dest_reg, Some(src_reg), 0, OpcodeSize::Dword);
            let mut cpu = Cpu::new();
            cpu.register_file.registers[index(src_reg)] = 0xAABBCCDD;
            let opcode = cpu.decoder(opcode);
            assert_eq!(cpu.execution_stage(opcode), Ok(()));
            assert_eq!(
                cpu.register_file.registers[index(dest_reg)],
                cpu.register_file.registers[index(src_reg)]
            );
        }
    }
}

#[test]
fn test_move_word_registers_execution() {
    for dest_reg in ALL_REGISTERS {
        for src_reg in ALL_REGISTERS {
            let opcode = generate_opcode(0x01, AddressingMode::Atomic, dest_reg, Some(src_reg), 0, OpcodeSize::Word);
            let mut cpu = Cpu::new();
            cpu.register_file.registers[index(src_reg)] = 0xAABBCCDD;
            let opcode = cpu.decoder(opcode);
            assert_eq!(cpu.execution_stage(opcode), Ok(()));
            assert_eq!(cpu.register_file.registers[index(dest_reg)], 0x0000CCDD);
        }
    }
}

#[test]
fn test_move_byte_registers_execution() {
    for dest_reg in ALL_REGISTERS {
        for src_reg in ALL_REGISTERS {
            let opcode = generate_opcode(0x01, AddressingMode::Atomic, dest_reg, Some(src_reg), 0, OpcodeSize::Byte);
            let mut cpu = Cpu::new();
            cpu.register_file.registers[index(src_reg)] = 0xAABBCCDD;
            let opcode = cpu.decoder(opcode);
            assert_eq!(cpu.execution_stage(opcode), Ok(()));
            assert_eq!(cpu.register_file.registers[index(dest_reg)], 0x000000DD);
        }
    }
}

fn register_into_memory_case(size: OpcodeSize, expected: u32) {
    for dest_reg in address_registers() {
        for src_reg in data_registers() {
            let opcode = generate_opcode(0x01, AddressingMode::MemoryDest, dest_reg, Some(src_reg), 0, size);
            let mut cpu = Cpu::new();
            cpu.register_file.registers[index(src_reg)] = 0xDEADBEEF;
            cpu.register_file.registers[index(dest_reg)] = 0x05403502;
            let opcode = cpu.decoder(opcode);
            assert_eq!(cpu.execution_stage(opcode), Ok(()));
            assert_eq!(cpu.memory.memory_bus_read(&size, 0x05403502), expected);
        }
    }
}

#[test]
fn test_move_byte_register_into_memory_execution() {
    register_into_memory_case(OpcodeSize::Byte, 0x000000EF);
}

#[test]
fn test_move_word_register_into_memory_execution() {
    register_into_memory_case(OpcodeSize::Word, 0x0000BEEF);
}

#[test]
fn test_move_dword_register_into_memory_execution() {
    register_into_memory_case(OpcodeSize::Dword, 0xDEADBEEF);
}

#[test]
fn test_move_byte_inc_register_into_memory_execution() {
    for dest_reg in data_registers() {
        for src_reg in address_registers() {
            let opcode = generate_opcode(0x01, AddressingMode::MemorySrcInc, dest_reg, Some(src_reg), 0, OpcodeSize::Byte);
            let mut cpu = Cpu::new();
            cpu.memory.write_byte(0x05403502, 0xEF);
            cpu.register_file.registers[index(src_reg)] = 0x05403502;
            let opcode = cpu.decoder(opcode);
            assert_eq!(cpu.execution_stage(opcode), Ok(()));
            assert_eq!(cpu.register_file.registers[index(dest_reg)], 0x000000EF);
            assert_eq!(cpu.register_file.registers[index(src_reg)], 0x05403503)
        }
    }
}

#[test]
fn test_move_word_inc_register_into_memory_execution() {
    for dest_reg in data_registers() {
        for src_reg in address_registers() {
            let opcode = generate_opcode(0x01, AddressingMode::MemorySrcInc, dest_reg, Some(src_reg), 0, OpcodeSize::Word);
            let mut cpu = Cpu::new();
            cpu.memory.write_word(0x05403502, 0xBEEF);
            cpu.register_file.registers[index(src_reg)] = 0x05403502;
            let opcode = cpu.decoder(opcode);
            assert_eq!(cpu.execution_stage(opcode), Ok(()));
            assert_eq!(cpu.register_file.registers[index(dest_reg)], 0x0000BEEF);
            assert_eq!(cpu.register_file.registers[index(src_reg)], 0x05403504)
        }
    }
}

#[test]
fn test_move_dword_inc_register_into_memory_execution() {
    for dest_reg in data_registers() {
        for src_reg in address_registers() {
            let opcode = generate_opcode(0x01, AddressingMode::MemorySrcInc, dest_reg, Some(src_reg), 0, OpcodeSize::Dword);
            let mut cpu = Cpu::new();
            cpu.memory.write_dword(0x05403502, 0xDEADBEEF);
            cpu.register_file.registers[index(src_reg)] = 0x05403502;
            let opcode = cpu.decoder(opcode);
            assert_eq!(cpu.execution_stage(opcode), Ok(()));
            assert_eq!(cpu.register_file.registers[index(dest_reg)], 0xDEADBEEF);
            assert_eq!(cpu.register_file.registers[index(src_reg)], 0x05403506)
        }
    }
}

#[test]
fn core_test_move_memory_to_dword_registers() {
    for address_register in &address_registers() {
        let opcode = generate_opcode(0x01, AddressingMode::MemorySrc, Register::D0, Some(*address_register), 0, OpcodeSize::Dword);
        let result = get_decoder_result(opcode);
        let expected = simple_move_expect(AddressingMode::MemorySrc, Register::D0, *address_register, OpcodeSize::Dword);
        assert_eq!(result, expected, "Failed {:?}, {:?}", result, expected);
    }
}

#[test]
fn test_opcode_load_effective_address() {
    for dest_reg in address_registers() {
        let opcode = generate_opcode(0x02, AddressingMode::Immediate, dest_reg, None, 0, OpcodeSize::Dword);
        let mut cpu = Cpu::new();
        cpu.pc = 0x054034FE;
        cpu.memory.write_dword(0x05403502, 0xC0EDCAFE);
        let opcode = cpu.decoder(opcode);
        assert_eq!(cpu.execution_stage(opcode), Ok(()));
        assert_eq!(cpu.register_file.registers[index(dest_reg)], 0xC0EDCAFE);
        assert_eq!(cpu.pc, 0x05403502);
    }
}

#[test]
fn truncation_keeps_low_bytes() {
    let v = 0xAABBCCDDu32;
    assert_eq!(OpcodeSize::Byte.retrieve_data(v), v & 0xFF);
    assert_eq!(OpcodeSize::Word.retrieve_data(v), v & 0xFFFF);
    assert_eq!(OpcodeSize::Dword.retrieve_data(v), v);
    assert_eq!(OpcodeSize::Byte.retrieve_data(0x1FF), 0xFF);
}

#[test]
fn size_field_three_aliases_dword() {
    assert_eq!(OpcodeSize::new(3), OpcodeSize::Dword);
    assert_eq!(OpcodeSize::new(0), OpcodeSize::Byte);
    assert_eq!(OpcodeSize::new(1), OpcodeSize::Word);
    assert_eq!(OpcodeSize::Word.size_in_bytes(), 2);
    assert_eq!(OpcodeSize::Dword.size_in_bytes(), 4);
}

#[test]
fn register_ordinals_round_trip() {
    for r in 0u32..32 {
        let reg = Register::new(r);
        let back: u32 = reg.into();
        assert_eq!(back, r);
    }
    assert_eq!(Register::new(16), Register::A0);
    assert!(Register::A0.is_address_register());
    assert!(!Register::D15.is_address_register());
}

#[test]
fn decode_then_encode_round_trips() {
    for id in 1u32..=4 {
        for mode in 0u32..8 {
            for size in 0u32..3 {
                let dest = if id == 3 { 0 } else { 21 };
                let src = if id == 2 || id == 4 { 0 } else { 6 };
                let word = (size << 30) | (src << 19) | (dest << 14) | (mode << 8) | id;
                assert_eq!(decode(word).encode(), word);
            }
        }
    }
}

#[test]
fn unknown_opcode_id_decodes_to_marker() {
    assert_eq!(decode(0x0000_0000), Opcode::Unknown);
    assert_eq!(decode(0x0000_00FF), Opcode::Unknown);
    let mut cpu = Cpu::new();
    assert_eq!(cpu.execution_stage(Opcode::Unknown), Err(ExecutionError::UnknownOpcode));
}

#[test]
fn bit_pattern_splits_fields() {
    let word = (2u32 << 30) | (5 << 24) | (17 << 19) | (3 << 14) | (6 << 8) | 1;
    let p = BitPattern::new(word);
    assert_eq!(p.opcode, 1);
    assert_eq!(p.addr_mode, 6);
    assert_eq!(p.src_reg & 0x1F, 17);
    assert_eq!(p.src_reg, 17 | (1 << 5));
    assert_eq!(p.offset, 5);
    assert_eq!(p.size, 2);
    assert_eq!(p.dest_reg & 0x1F, 3);
    assert_eq!(
        p.to_opcode(),
        Opcode::Move(MoveOpcode {
            addr_mode: AddressingMode::MemoryDestDec,
            destination: Register::D3,
            source: Register::A1,
            offset: 5,
            size: OpcodeSize::Dword,
        })
    );
}

#[test]
fn move_atomic_dword_copies_register() {
    let mut cpu = Cpu::new();
    cpu.register_file.registers[5] = 0xAABBCCDD;
    let op = simple_move_expect(AddressingMode::Atomic, Register::D0, Register::D5, OpcodeSize::Dword);
    assert_eq!(cpu.execution_stage(op), Ok(()));
    assert_eq!(cpu.register_file.registers[0], 0xAABBCCDD);
}

#[test]
fn move_atomic_word_keeps_low_half() {
    let mut cpu = Cpu::new();
    cpu.register_file.registers[5] = 0xAABBCCDD;
    let op = simple_move_expect(AddressingMode::Atomic, Register::D0, Register::D5, OpcodeSize::Word);
    assert_eq!(cpu.execution_stage(op), Ok(()));
    assert_eq!(cpu.register_file.registers[0], 0x0000CCDD);
}

#[test]
fn move_memory_src_inc_advances_pointer() {
    let mut cpu = Cpu::new();
    cpu.register_file.registers[16] = 0x05403502;
    cpu.memory.write_dword(0x05403502, 0xDEADBEEF);
    let op = simple_move_expect(AddressingMode::MemorySrcInc, Register::D1, Register::A0, OpcodeSize::Dword);
    assert_eq!(cpu.execution_stage(op), Ok(()));
    assert_eq!(cpu.register_file.registers[1], 0xDEADBEEF);
    assert_eq!(cpu.register_file.registers[16], 0x05403506);
}

#[test]
fn move_memory_src_dec_steps_pointer_back() {
    let mut cpu = Cpu::new();
    cpu.register_file.registers[16] = 0x100;
    cpu.memory.write_word(0x100, 0x1234);
    let op = simple_move_expect(AddressingMode::MemorySrcDec, Register::D2, Register::A0, OpcodeSize::Word);
    assert_eq!(cpu.execution_stage(op), Ok(()));
    assert_eq!(cpu.register_file.registers[2], 0x1234);
    assert_eq!(cpu.register_file.registers[16], 0xFE);
}

#[test]
fn move_memory_dest_inc_and_dec() {
    let mut cpu = Cpu::new();
    cpu.register_file.registers[3] = 0x11223344;
    cpu.register_file.registers[17] = 0x200;
    let inc = simple_move_expect(AddressingMode::MemoryDestInc, Register::A1, Register::D3, OpcodeSize::Dword);
    assert_eq!(cpu.execution_stage(inc), Ok(()));
    assert_eq!(cpu.memory.read_dword(0x200), 0x11223344);
    assert_eq!(cpu.register_file.registers[17], 0x204);
    let dec = simple_move_expect(AddressingMode::MemoryDestDec, Register::A1, Register::D3, OpcodeSize::Byte);
    assert_eq!(cpu.execution_stage(dec), Ok(()));
    assert_eq!(cpu.memory.read_byte(0x204), 0x44);
    assert_eq!(cpu.register_file.registers[17], 0x203);
}

#[test]
fn move_immediate_loads_trailing_word() {
    let mut cpu = Cpu::new();
    cpu.pc = 0x40;
    cpu.memory.write_dword(0x44, 0xCAFEBABE);
    let op = simple_move_expect(AddressingMode::Immediate, Register::D7, Register::D0, OpcodeSize::Byte);
    assert_eq!(cpu.execution_stage(op), Ok(()));
    assert_eq!(cpu.register_file.registers[7], 0xCAFEBABE);
    assert_eq!(cpu.pc, 0x44);
}

#[test]
fn move_sets_zero_and_negative_flags() {
    let mut cpu = Cpu::new();
    let op = simple_move_expect(AddressingMode::Atomic, Register::D0, Register::D1, OpcodeSize::Dword);
    assert_eq!(cpu.execution_stage(op), Ok(()));
    assert!(cpu.status_register.is_raised(Flags::Zero));
    assert!(!cpu.status_register.is_raised(Flags::Negative));
    cpu.register_file.registers[1] = 0x8000_0001;
    assert_eq!(cpu.execution_stage(op), Ok(()));
    assert!(!cpu.status_register.is_raised(Flags::Zero));
    assert!(cpu.status_register.is_raised(Flags::Negative));
    assert_eq!(cpu.status_register.status_bits(), 1 << 15);
    cpu.register_file.registers[1] = 7;
    assert_eq!(cpu.execution_stage(op), Ok(()));
    assert_eq!(cpu.status_register.status_bits(), 0);
}

#[test]
fn lea_into_data_register_is_rejected() {
    let mut cpu = Cpu::new();
    let op = Opcode::Lea(LeaOpcode {
        addr_mode: AddressingMode::Immediate,
        destination: Register::D3,
        offset: 0,
        size: OpcodeSize::Dword,
    });
    assert_eq!(cpu.execution_stage(op), Err(ExecutionError::InvalidAddressing));
    assert_eq!(cpu.pc, 0);
}

#[test]
fn push_and_pop_through_stack_pointer() {
    let mut cpu = Cpu::new();
    cpu.register_file.registers[31] = 0x1000;
    cpu.register_file.registers[4] = 0xA1B2C3D4;
    let push = Opcode::Push(PushOpcode {
        addressing_mode: AddressingMode::Atomic,
        source: Register::D4,
        offset: 0,
        size: OpcodeSize::Dword,
    });
    assert_eq!(cpu.execution_stage(push), Ok(()));
    assert_eq!(cpu.memory.read_dword(0x1000), 0xA1B2C3D4);
    assert_eq!(cpu.register_file.registers[31], 0x0FFC);
    cpu.register_file.registers[31] = 0x1000;
    let pop = Opcode::Pop(PopOpcode {
        addressing_mode: AddressingMode::Atomic,
        destination: Register::D5,
        offset: 0,
        size: OpcodeSize::Word,
    });
    assert_eq!(cpu.execution_stage(pop), Ok(()));
    assert_eq!(cpu.register_file.registers[5], 0xA1B2);
    assert_eq!(cpu.register_file.registers[31], 0x1002);
}

#[test]
fn push_immediate_and_pop_into_memory() {
    let mut cpu = Cpu::new();
    cpu.register_file.registers[31] = 0x2000;
    cpu.pc = 0x10;
    cpu.memory.write_word(0x14, 0xBEEF);
    let push = Opcode::Push(PushOpcode {
        addressing_mode: AddressingMode::Immediate,
        source: Register::D0,
        offset: 0,
        size: OpcodeSize::Word,
    });
    assert_eq!(cpu.execution_stage(push), Ok(()));
    assert_eq!(cpu.pc, 0x14);
    assert_eq!(cpu.memory.read_word(0x2000), 0xBEEF);
    assert_eq!(cpu.register_file.registers[31], 0x1FFE);
    cpu.register_file.registers[31] = 0x2000;
    cpu.register_file.registers[18] = 0x3000;
    let pop = Opcode::Pop(PopOpcode {
        addressing_mode: AddressingMode::MemoryDestInc,
        destination: Register::A2,
        offset: 0,
        size: OpcodeSize::Word,
    });
    assert_eq!(cpu.execution_stage(pop), Ok(()));
    assert_eq!(cpu.memory.read_word(0x3000), 0xBEEF);
    assert_eq!(cpu.register_file.registers[18], 0x3002);
    assert_eq!(cpu.register_file.registers[31], 0x2002);
}

#[test]
fn push_and_pop_reject_missing_modes() {
    let mut cpu = Cpu::new();
    let push = Opcode::Push(PushOpcode {
        addressing_mode: AddressingMode::MemorySrc,
        source: Register::A0,
        offset: 0,
        size: OpcodeSize::Byte,
    });
    assert_eq!(cpu.execution_stage(push), Err(ExecutionError::InvalidAddressing));
    let pop = Opcode::Pop(PopOpcode {
        addressing_mode: AddressingMode::Immediate,
        destination: Register::D0,
        offset: 0,
        size: OpcodeSize::Byte,
    });
    assert_eq!(cpu.execution_stage(pop), Err(ExecutionError::InvalidAddressing));
}

#[test]
fn memory_addresses_wrap_around() {
    let mut cpu = Cpu::new();
    cpu.memory.write_dword(0xFFFF_FFFE, 0x0102_0304);
    assert_eq!(cpu.memory.read_byte(0x07FF_FFFE), 0x01);
    assert_eq!(cpu.memory.read_byte(0x07FF_FFFF), 0x02);
    assert_eq!(cpu.memory.read_byte(0), 0x03);
    assert_eq!(cpu.memory.read_byte(1), 0x04);
    assert_eq!(cpu.memory.read_dword(0x07FF_FFFE), 0x0102_0304);
}

#[test]
fn pointer_arithmetic_wraps() {
    let mut cpu = Cpu::new();
    cpu.register_file.registers[16] = 0;
    let op = simple_move_expect(AddressingMode::MemorySrcDec, Register::D0, Register::A0, OpcodeSize::Dword);
    assert_eq!(cpu.execution_stage(op), Ok(()));
    assert_eq!(cpu.register_file.registers[16], 0xFFFF_FFFC);
}

#[test]
fn cycle_runs_a_loaded_program() {
    let move_immediate = simple_move_expect(AddressingMode::Immediate, Register::D0, Register::D0, OpcodeSize::Dword).encode();
    let move_atomic = simple_move_expect(AddressingMode::Atomic, Register::D1, Register::D0, OpcodeSize::Byte).encode();
    let mut image: Vec<u8> = Vec::new();
    for word in [move_immediate, 0x1234_5678, move_atomic, 0] {
        image.extend_from_slice(&word.to_be_bytes());
    }
    let mut cpu = Cpu::new();
    cpu.load_bytes_into_memory(&image);
    assert_eq!(cpu.memory.read_dword(4), 0x1234_5678);
    assert_eq!(cpu.cycle(), Ok(()));
    assert_eq!(cpu.register_file.registers[0], 0x1234_5678);
    assert_eq!(cpu.pc, 8);
    assert_eq!(cpu.cycle(), Ok(()));
    assert_eq!(cpu.register_file.registers[1], 0x78);
    assert_eq!(cpu.pc, 12);
    assert_eq!(cpu.cycle(), Err(ExecutionError::UnknownOpcode));
    assert_eq!(cpu.pc, 12);
}

#[test]
fn register_file_tracks_last_written() {
    let mut cpu = Cpu::new();
    cpu.register_file.write_value(&Register::A3, 42);
    assert_eq!(cpu.register_file.read_value(&Register::A3), 42);
    assert_eq!(cpu.register_file.last_written_value(), 42);
    assert_eq!(cpu.register_file.registers[19], 42);
}

#[test]
fn status_register_raise_and_clear() {
    let mut cpu = Cpu::new();
    cpu.status_register.raise(Flags::Trap);
    cpu.status_register.raise(Flags::Zero);
    assert_eq!(cpu.status_register.status_bits(), (1 << 8) | (1 << 11));
    cpu.status_register.clear(Flags::Zero);
    assert_eq!(cpu.status_register.status_bits(), 1 << 8);
    assert!(cpu.status_register.is_raised(Flags::Trap));
}

#[test]
fn size_and_mode_names() {
    assert_eq!(OpcodeSize::Byte.mnemonic(), "B");
    assert_eq!(OpcodeSize::Word.mnemonic(), "W");
    assert_eq!(OpcodeSize::Dword.mnemonic(), "DW");
    assert_eq!(AddressingMode::new(5), AddressingMode::MemorySrcInc);
    assert_eq!(AddressingMode::MemorySrcDec.to_bits(), 7);
    let word = (1u32 << 30) | (3 << 19) | (17 << 14) | (2 << 8) | 1;
    let op: Opcode = BitPattern::new(word).into();
    assert_eq!(op, decode(word));
}

#[test]
fn opcode_execute_matches_execution_stage() {
    let mut cpu = Cpu::new();
    cpu.register_file.registers[2] = 0x8000_0000;
    let m = MoveOpcode {
        addr_mode: AddressingMode::Atomic,
        destination: Register::D1,
        source: Register::D2,
        offset: 0,
        size: OpcodeSize::Dword,
    };
    m.execute(&mut cpu);
    assert_eq!(cpu.register_file.registers[1], 0x8000_0000);
    assert!(cpu.status_register.is_raised(Flags::Negative));
    let lea = LeaOpcode {
        addr_mode: AddressingMode::Immediate,
        destination: Register::A7,
        offset: 0,
        size: OpcodeSize::Dword,
    };
    cpu.memory.write_dword(4, 0x0BAD_F00D);
    assert_eq!(lea.execute(&mut cpu), Ok(()));
    assert_eq!(cpu.register_file.registers[23], 0x0BAD_F00D);
    assert_eq!(cpu.pc, 4);
    assert_eq!(Opcode::Unknown.execute(&mut cpu), Err(ExecutionError::UnknownOpcode));
}
