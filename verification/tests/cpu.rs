use gb_core::cpu::{DecodeError, CPU};
use gb_core::instructions::Instruction;
use gb_core::mmu::Mmu;
use gb_core::registers::{Flag, Registers};

fn load(mmu: &mut Mmu, at: u16, program: &[u8]) {
    let mut addr = at;
    for byte in program {
        mmu.write_byte(addr, *byte);
        addr = addr.wrapping_add(1);
    }
}

#[test]
fn new_cpu_is_zeroed() {
    let cpu = CPU::new();

    assert_eq!(cpu.cycles, 0);
    assert_eq!(cpu.registers, Registers::new());
}

#[test]
fn fetch_immediate_byte_advances_by_one() {
    let mut cpu = CPU::new();
    let mut mmu = Mmu::new();
    cpu.registers.pc = 0xFFFF;
    mmu.write_byte(0xFFFF, 0x12);

    assert_eq!(cpu.fetch_immediate_byte(&mmu), 0x12);
    assert_eq!(cpu.registers.pc, 0x0000);
}

#[test]
fn fetch_immediate_word_advances_by_two() {
    let mut cpu = CPU::new();
    let mut mmu = Mmu::new();
    cpu.registers.pc = 0xFFFF;
    mmu.write_byte(0xFFFF, 0x34);
    mmu.write_byte(0x0000, 0x12);

    assert_eq!(cpu.fetch_immediate_word(&mmu), 0x1234);
    assert_eq!(cpu.registers.pc, 0x0001);
}

#[test]
fn cycle_total_is_the_sum_of_the_costs() {
    let mut cpu = CPU::new();
    let mut mmu = Mmu::new();
    // LD BC, 0x1234; LD B, C
    load(&mut mmu, 0, &[0x01, 0x34, 0x12, 0x41]);

    assert_eq!(cpu.step(&mut mmu), Ok(12));
    assert_eq!(cpu.cycles, 12);
    assert_eq!(cpu.registers.read_bc(), 0x1234);
    assert_eq!(cpu.registers.pc, 3);

    assert_eq!(cpu.step(&mut mmu), Ok(4));
    assert_eq!(cpu.cycles, 16);
    assert_eq!(cpu.registers.b, 0x34);
    assert_eq!(cpu.registers.c, 0x34);
    assert_eq!(cpu.registers.pc, 4);
}

#[test]
fn pc_advances_by_the_instruction_length() {
    // One opcode of each family, the bytes it takes and its cycles.
    let cases: [(u8, u16, u8); 23] = [
        (0x00, 1, 4),
        (0x41, 1, 4),
        (0x06, 2, 8),
        (0x01, 3, 12),
        (0x31, 3, 12),
        (0x70, 1, 8),
        (0x02, 1, 8),
        (0x36, 2, 12),
        (0x46, 1, 8),
        (0x0A, 1, 8),
        (0xEA, 3, 16),
        (0xFA, 3, 16),
        (0x22, 1, 8),
        (0x32, 1, 8),
        (0x2A, 1, 8),
        (0x3A, 1, 8),
        (0xE0, 2, 12),
        (0xE2, 1, 8),
        (0xF0, 2, 12),
        (0xF2, 1, 8),
        (0x80, 1, 4),
        (0x88, 1, 4),
        (0xC6, 2, 8),
    ];
    for (opcode, length, cycles) in cases {
        let mut cpu = CPU::new();
        let mut mmu = Mmu::new();
        cpu.registers.pc = 0x0100;
        cpu.registers.write_hl(0xC000);
        load(&mut mmu, 0x0100, &[opcode, 0x00, 0xD0]);

        assert_eq!(cpu.step(&mut mmu), Ok(cycles));
        assert_eq!(cpu.registers.pc, 0x0100 + length);
        assert_eq!(cpu.cycles, cycles as u64);
    }
}

#[test]
fn store_sp_takes_three_bytes_and_twenty_cycles() {
    let mut cpu = CPU::new();
    let mut mmu = Mmu::new();
    cpu.registers.sp = 0xFFFE;
    load(&mut mmu, 0, &[0x08, 0x00, 0xC0]);

    assert_eq!(cpu.step(&mut mmu), Ok(20));

    assert_eq!(cpu.registers.pc, 3);
    assert_eq!(mmu.read_word(0xC000), 0xFFFE);
}

#[test]
fn every_opcode_in_the_table_steps() {
    for byte in 0..=0xFFu8 {
        let mut cpu = CPU::new();
        let mut mmu = Mmu::new();
        cpu.registers.pc = 0x0100;
        load(&mut mmu, 0x0100, &[byte, 0x10, 0x20]);

        let result = cpu.step(&mut mmu);

        match Instruction::from_byte(byte) {
            Some(_) => {
                let cycles = result.unwrap();
                assert!(matches!(cycles, 4 | 8 | 12 | 16 | 20));
                assert_eq!(cpu.cycles, cycles as u64);
                assert!((0x0101..=0x0103).contains(&cpu.registers.pc));
            }
            None => {
                assert_eq!(result, Err(DecodeError { opcode: byte, address: 0x0100 }));
            }
        }
    }
}

#[test]
fn halt_is_a_decode_failure() {
    let mut cpu = CPU::new();
    let mut mmu = Mmu::new();
    cpu.registers.pc = 0x0150;
    cpu.registers.a = 0x11;
    cpu.registers.set_flag(Flag::C, true);
    cpu.cycles = 40;
    load(&mut mmu, 0x0150, &[0x76, 0x3E, 0x99]);
    let memory_before = mmu.memory;
    let mut expected = cpu.registers;
    expected.pc = 0x0151;

    let result = cpu.step(&mut mmu);

    assert_eq!(result, Err(DecodeError { opcode: 0x76, address: 0x0150 }));
    assert_eq!(cpu.registers, expected);
    assert_eq!(cpu.cycles, 40);
    assert!(mmu.memory == memory_before);

    // The byte after it still decodes as its own instruction.
    assert_eq!(cpu.step(&mut mmu), Ok(8));
    assert_eq!(cpu.registers.a, 0x99);
    assert_eq!(cpu.registers.pc, 0x0153);
    assert_eq!(cpu.cycles, 48);
}

#[test]
fn unassigned_byte_is_a_decode_failure() {
    let mut cpu = CPU::new();
    let mut mmu = Mmu::new();
    load(&mut mmu, 0, &[0xD3]);

    assert_eq!(cpu.step(&mut mmu), Err(DecodeError { opcode: 0xD3, address: 0 }));
    assert_eq!(cpu.registers.pc, 1);
    assert_eq!(cpu.cycles, 0);
}

#[test]
fn step_wraps_the_program_counter() {
    let mut cpu = CPU::new();
    let mut mmu = Mmu::new();
    cpu.registers.pc = 0xFFFF;
    // LD A, n8 with the opcode at the last address and the operand at 0.
    mmu.write_byte(0xFFFF, 0x3E);
    mmu.write_byte(0x0000, 0x42);

    assert_eq!(cpu.step(&mut mmu), Ok(8));

    assert_eq!(cpu.registers.a, 0x42);
    assert_eq!(cpu.registers.pc, 0x0001);
}

#[test]
fn cycle_total_wraps_at_64_bits() {
    let mut cpu = CPU::new();
    let mut mmu = Mmu::new();
    cpu.cycles = u64::MAX - 1;

    assert_eq!(cpu.step(&mut mmu), Ok(4));

    assert_eq!(cpu.cycles, 2);
}

#[test]
fn a_short_program_runs() {
    let mut cpu = CPU::new();
    let mut mmu = Mmu::new();
    load(
        &mut mmu,
        0,
        &[
            0x21, 0xFF, 0xFF, // LD HL, 0xFFFF
            0x3E, 0x0F, // LD A, 0x0F
            0x22, // LD [HL+], A
            0xC6, 0x01, // ADD A, 0x01
            0x0E, 0x10, // LD C, 0x10
            0xE2, // LDH [C], A
            0x47, // LD B, A
            0x88, // ADC A, B
        ],
    );

    let mut total = 0u64;
    for _ in 0..8 {
        total += cpu.step(&mut mmu).unwrap() as u64;
    }

    assert_eq!(total, 12 + 8 + 8 + 8 + 8 + 8 + 4 + 4);
    assert_eq!(cpu.cycles, total);
    assert_eq!(cpu.registers.pc, 13);
    assert_eq!(cpu.registers.read_hl(), 0x0000);
    assert_eq!(mmu.read_byte(0xFFFF), 0x0F);
    assert_eq!(mmu.read_byte(0xFF10), 0x10);
    assert_eq!(cpu.registers.b, 0x10);
    assert_eq!(cpu.registers.a, 0x20);
    assert!(!cpu.registers.get_flag(Flag::H));
    assert!(!cpu.registers.get_flag(Flag::C));
}
