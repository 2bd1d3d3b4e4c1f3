//! The opcode table: which operation each opcode byte names, and what each
//! operation does to the registers and the memory.

use vstd::prelude::*;
use crate::cpu::CPU;
use crate::mmu::{Mmu, next_addr, word_at, with_word};
use crate::registers::{Reg, Reg16, Registers};
use crate::instructions::functions::{
    adc, add_imm8, alu_add, high_page, ld, ld_a_hl_dec, ld_a_hl_inc, ld_addr_reg, ld_hl_dec_a,
    ld_hl_inc_a, ld_imm16, ld_imm16_sp, ld_imm8, ld_imm8_hl, ld_imm_addr_reg, ld_imm_addr_sp,
    ld_reg_addr, ld_reg_imm_addr, ldh_a_c, ldh_a_imm8, ldh_c_a, ldh_imm8_a, nop, prev_addr,
};

pub mod functions;

verus! {

/// What an instruction does, with the registers it names.
#[derive(Debug, Clone, Copy, PartialEq, Eq)]
pub enum Operation {
    /// NOP.
    Nop,
    /// LD r, r': copy the first register into the second.
    Copy(Reg, Reg),
    /// LD r, n8: load the immediate byte into the register.
    Load8(Reg),
    /// LD rr, n16: load the immediate word into the pair.
    Load16(Reg16),
    /// LD SP, n16: load the immediate word into the stack pointer.
    Load16Sp,
    /// LD [rr], r: store the register at the address in the pair.
    CopyToAddress(Reg, Reg16),
    /// LD [HL], n8: store the immediate byte at the address in HL.
    Load8ToHl,
    /// LD r, [rr]: load the register from the address in the pair.
    LoadFromAddress(Reg16, Reg),
    /// LD [n16], r: store the register at the immediate address.
    CopyToLoadedAddress(Reg),
    /// LD r, [n16]: load the register from the immediate address.
    LoadFromLoadedAddress(Reg),
    /// LD [HL+], A.
    StoreHlInc,
    /// LD [HL-], A.
    StoreHlDec,
    /// LD A, [HL+].
    LoadHlInc,
    /// LD A, [HL-].
    LoadHlDec,
    /// LDH [n8], A.
    StoreHighImm,
    /// LDH [C], A.
    StoreHighC,
    /// LDH A, [n8].
    LoadHighImm,
    /// LDH A, [C].
    LoadHighC,
    /// LD [n16], SP.
    StoreSp,
    /// ADD A, r.
    Add(Reg),
    /// ADC A, r.
    Adc(Reg),
    /// ADD A, n8.
    AddImm8,
}

impl Operation {
    /// The cycles the operation takes.
    pub open spec fn cycles(self) -> u8 {
        match self {
            Operation::Nop => 4,
            Operation::Copy(_, _) => 4,
            Operation::Load8(_) => 8,
            Operation::Load16(_) => 12,
            Operation::Load16Sp => 12,
            Operation::CopyToAddress(_, _) => 8,
            Operation::Load8ToHl => 12,
            Operation::LoadFromAddress(_, _) => 8,
            Operation::CopyToLoadedAddress(_) => 16,
            Operation::LoadFromLoadedAddress(_) => 16,
            Operation::StoreHlInc => 8,
            Operation::StoreHlDec => 8,
            Operation::LoadHlInc => 8,
            Operation::LoadHlDec => 8,
            Operation::StoreHighImm => 12,
            Operation::StoreHighC => 8,
            Operation::LoadHighImm => 12,
            Operation::LoadHighC => 8,
            Operation::StoreSp => 20,
            Operation::Add(_) => 4,
            Operation::Adc(_) => 4,
            Operation::AddImm8 => 8,
        }
    }

    /// The number of immediate bytes that follow the opcode byte.
    pub open spec fn operand_len(self) -> nat {
        match self {
            Operation::Load8(_)
            | Operation::Load8ToHl
            | Operation::StoreHighImm
            | Operation::LoadHighImm
            | Operation::AddImm8 => 1,
            Operation::Load16(_)
            | Operation::Load16Sp
            | Operation::CopyToLoadedAddress(_)
            | Operation::LoadFromLoadedAddress(_)
            | Operation::StoreSp => 2,
            _ => 0,
        }
    }

    /// The length of the whole instruction in bytes: the opcode byte and the
    /// immediate bytes.
    pub open spec fn length(self) -> nat {
        1 + self.operand_len()
    }

    /// The register file after the operation, when it starts with the
    /// registers `regs`, whose program counter is at the first immediate
    /// byte, and the memory `mem`.
    pub open spec fn registers_after(self, regs: Registers, mem: Seq<u8>) -> Registers {
        let imm8 = mem[regs.pc as int];
        let imm16 = word_at(mem, regs.pc);
        let hl = regs.spec_read_pair(Reg16::HL);
        let past = Registers { pc: crate::cpu::advance(regs.pc, self.operand_len()), ..regs };
        match self {
            Operation::Nop => regs,
            Operation::Copy(from, to) => regs.spec_write_reg(to, regs.spec_read_reg(from)),
            Operation::Load8(to) => past.spec_write_reg(to, imm8),
            Operation::Load16(pair) => past.spec_write_pair(pair, imm16),
            Operation::Load16Sp => Registers { sp: imm16, ..past },
            Operation::CopyToAddress(_, _) => regs,
            Operation::Load8ToHl => past,
            Operation::LoadFromAddress(pair, to) => regs.spec_write_reg(
                to,
                mem[regs.spec_read_pair(pair) as int],
            ),
            Operation::CopyToLoadedAddress(_) => past,
            Operation::LoadFromLoadedAddress(to) => past.spec_write_reg(to, mem[imm16 as int]),
            Operation::StoreHlInc => regs.spec_write_pair(Reg16::HL, next_addr(hl)),
            Operation::StoreHlDec => regs.spec_write_pair(Reg16::HL, prev_addr(hl)),
            Operation::LoadHlInc => regs.spec_write_reg(Reg::A, mem[hl as int]).spec_write_pair(
                Reg16::HL,
                next_addr(hl),
            ),
            Operation::LoadHlDec => regs.spec_write_reg(Reg::A, mem[hl as int]).spec_write_pair(
                Reg16::HL,
                prev_addr(hl),
            ),
            Operation::StoreHighImm => past,
            Operation::StoreHighC => regs,
            Operation::LoadHighImm => Registers { a: mem[high_page(imm8) as int], ..past },
            Operation::LoadHighC => Registers { a: mem[high_page(regs.c) as int], ..regs },
            Operation::StoreSp => past,
            Operation::Add(from) => alu_add(regs, regs.spec_read_reg(from), false),
            Operation::Adc(from) => alu_add(regs, regs.spec_read_reg(from), regs.f.carry),
            Operation::AddImm8 => alu_add(past, imm8, false),
        }
    }

    /// The memory after the operation, when it starts with the registers
    /// `regs`, whose program counter is at the first immediate byte, and the
    /// memory `mem`.
    pub open spec fn memory_after(self, regs: Registers, mem: Seq<u8>) -> Seq<u8> {
        let imm8 = mem[regs.pc as int];
        let imm16 = word_at(mem, regs.pc);
        let hl = regs.spec_read_pair(Reg16::HL);
        match self {
            Operation::CopyToAddress(from, pair) => mem.update(
                regs.spec_read_pair(pair) as int,
                regs.spec_read_reg(from),
            ),
            Operation::Load8ToHl => mem.update(hl as int, imm8),
            Operation::CopyToLoadedAddress(from) => mem.update(
                imm16 as int,
                regs.spec_read_reg(from),
            ),
            Operation::StoreHlInc | Operation::StoreHlDec => mem.update(hl as int, regs.a),
            Operation::StoreHighImm => mem.update(high_page(imm8) as int, regs.a),
            Operation::StoreHighC => mem.update(high_page(regs.c) as int, regs.a),
            Operation::StoreSp => with_word(mem, imm16, regs.sp),
            _ => mem,
        }
    }

    /// Performs the operation: changes the registers and the memory, moves
    /// the program counter past the immediate bytes, and returns the cycles
    /// taken. The cycle total of `cpu` is left alone.
    pub fn execute(&self, cpu: &mut CPU, mmu: &mut Mmu) -> (cycles: u8)
        ensures
            cycles == self.cycles(),
            final(cpu).cycles == old(cpu).cycles,
            final(cpu).registers == self.registers_after(old(cpu).registers, old(mmu)@),
            final(mmu)@ == self.memory_after(old(cpu).registers, old(mmu)@),
    {
        match *self {
            Operation::Nop => nop(cpu),
            Operation::Copy(from, to) => ld(cpu, from, to),
            Operation::Load8(to) => ld_imm8(cpu, mmu, to),
            Operation::Load16(pair) => ld_imm16(cpu, mmu, pair),
            Operation::Load16Sp => ld_imm16_sp(cpu, mmu),
            Operation::CopyToAddress(from, pair) => ld_reg_addr(cpu, mmu, from, pair),
            Operation::Load8ToHl => ld_imm8_hl(cpu, mmu),
            Operation::LoadFromAddress(pair, to) => ld_addr_reg(cpu, mmu, pair, to),
            Operation::CopyToLoadedAddress(from) => ld_reg_imm_addr(cpu, mmu, from),
            Operation::LoadFromLoadedAddress(to) => ld_imm_addr_reg(cpu, mmu, to),
            Operation::StoreHlInc => ld_hl_inc_a(cpu, mmu),
            Operation::StoreHlDec => ld_hl_dec_a(cpu, mmu),
            Operation::LoadHlInc => ld_a_hl_inc(cpu, mmu),
            Operation::LoadHlDec => ld_a_hl_dec(cpu, mmu),
            Operation::StoreHighImm => ldh_imm8_a(cpu, mmu),
            Operation::StoreHighC => ldh_c_a(cpu, mmu),
            Operation::LoadHighImm => ldh_a_imm8(cpu, mmu),
            Operation::LoadHighC => ldh_a_c(cpu, mmu),
            Operation::StoreSp => ld_imm_addr_sp(cpu, mmu),
            Operation::Add(from) => crate::instructions::functions::add(cpu, from),
            Operation::Adc(from) => adc(cpu, from),
            Operation::AddImm8 => add_imm8(cpu, mmu),
        }
    }
}

/// The register that a 3-bit operand field of an opcode names. Field 6
/// names the byte at the address in HL, which is not a register.
pub open spec fn reg_of_field(field: int) -> Option<Reg> {
    if field == 0 {
        Some(Reg::B)
    } else if field == 1 {
        Some(Reg::C)
    } else if field == 2 {
        Some(Reg::D)
    } else if field == 3 {
        Some(Reg::E)
    } else if field == 4 {
        Some(Reg::H)
    } else if field == 5 {
        Some(Reg::L)
    } else if field == 7 {
        Some(Reg::A)
    } else {
        None
    }
}

/// The operation that an opcode byte names, or `None` for a byte that names
/// none.
///
/// In `0x40..=0x7F` bits 5..3 name the destination and bits 2..0 the
/// source of a load; the byte with `[HL]` on both sides, `0x76`, is no load.
/// In `0x80..=0x8F` bits 2..0 name the register added to A. Below `0x40`
/// the bytes that end in 6 load an immediate byte into the destination
/// that bits 5..3 name.
pub open spec fn decode(byte: u8) -> Option<Operation> {
    if 0x40 <= byte <= 0x7F {
        match (reg_of_field((byte - 0x40) / 8), reg_of_field((byte % 8) as int)) {
            (Some(to), Some(from)) => Some(Operation::Copy(from, to)),
            (Some(to), None) => Some(Operation::LoadFromAddress(Reg16::HL, to)),
            (None, Some(from)) => Some(Operation::CopyToAddress(from, Reg16::HL)),
            (None, None) => None,
        }
    } else if 0x80 <= byte <= 0x87 {
        match reg_of_field(byte - 0x80) {
            Some(from) => Some(Operation::Add(from)),
            None => None,
        }
    } else if 0x88 <= byte <= 0x8F {
        match reg_of_field(byte - 0x88) {
            Some(from) => Some(Operation::Adc(from)),
            None => None,
        }
    } else if byte < 0x40 && byte % 8 == 6 {
        match reg_of_field((byte / 8) as int) {
            Some(to) => Some(Operation::Load8(to)),
            None => Some(Operation::Load8ToHl),
        }
    } else if byte == 0x00 {
        Some(Operation::Nop)
    } else if byte == 0x01 {
        Some(Operation::Load16(Reg16::BC))
    } else if byte == 0x11 {
        Some(Operation::Load16(Reg16::DE))
    } else if byte == 0x21 {
        Some(Operation::Load16(Reg16::HL))
    } else if byte == 0x31 {
        Some(Operation::Load16Sp)
    } else if byte == 0x02 {
        Some(Operation::CopyToAddress(Reg::A, Reg16::BC))
    } else if byte == 0x12 {
        Some(Operation::CopyToAddress(Reg::A, Reg16::DE))
    } else if byte == 0x22 {
        Some(Operation::StoreHlInc)
    } else if byte == 0x32 {
        Some(Operation::StoreHlDec)
    } else if byte == 0x0A {
        Some(Operation::LoadFromAddress(Reg16::BC, Reg::A))
    } else if byte == 0x1A {
        Some(Operation::LoadFromAddress(Reg16::DE, Reg::A))
    } else if byte == 0x2A {
        Some(Operation::LoadHlInc)
    } else if byte == 0x3A {
        Some(Operation::LoadHlDec)
    } else if byte == 0x08 {
        Some(Operation::StoreSp)
    } else if byte == 0xC6 {
        Some(Operation::AddImm8)
    } else if byte == 0xE0 {
        Some(Operation::StoreHighImm)
    } else if byte == 0xE2 {
        Some(Operation::StoreHighC)
    } else if byte == 0xEA {
        Some(Operation::CopyToLoadedAddress(Reg::A))
    } else if byte == 0xF0 {
        Some(Operation::LoadHighImm)
    } else if byte == 0xF2 {
        Some(Operation::LoadHighC)
    } else if byte == 0xFA {
        Some(Operation::LoadFromLoadedAddress(Reg::A))
    } else {
        None
    }
}

/// An entry of the opcode table.
#[derive(Debug, Clone, Copy, PartialEq, Eq)]
pub struct Instruction {
    /// The byte that names the instruction.
    pub opcode: u8,
    /// The instruction's name, for tracing.
    pub mnemonic: &'static str,
    /// What the instruction does.
    pub operation: Operation,
}

impl Instruction {
    /// An entry with the given parts.
    pub fn new(opcode: u8, mnemonic: &'static str, operation: Operation) -> (inst: Instruction)
        ensures
            inst.opcode == opcode,
            inst.mnemonic == mnemonic,
            inst.operation == operation,
    {
        Instruction { opcode, mnemonic, operation }
    }

    /// Looks `byte` up in the opcode table. The result is the one entry for
    /// that byte, or `None` where the byte names no operation.
    pub fn from_byte(byte: u8) -> (found: Option<Instruction>)
        ensures
            match found {
                Some(inst) => inst.opcode == byte && decode(byte) == Some(inst.operation),
                None => decode(byte) is None,
            },
    {
        match byte {
            0x00 => Some(Instruction::new(0x00, "NOP", Operation::Nop)),
            0x01 => Some(Instruction::new(0x01, "LD BC, n16", Operation::Load16(Reg16::BC))),
            0x02 => Some(Instruction::new(0x02, "LD [BC], A", Operation::CopyToAddress(Reg::A, Reg16::BC))),
            0x06 => Some(Instruction::new(0x06, "LD B, n8", Operation::Load8(Reg::B))),
            0x08 => Some(Instruction::new(0x08, "LD [n16], SP", Operation::StoreSp)),
            0x0A => Some(Instruction::new(0x0A, "LD A, [BC]", Operation::LoadFromAddress(Reg16::BC, Reg::A))),
            0x0E => Some(Instruction::new(0x0E, "LD C, n8", Operation::Load8(Reg::C))),
            0x11 => Some(Instruction::new(0x11, "LD DE, n16", Operation::Load16(Reg16::DE))),
            0x12 => Some(Instruction::new(0x12, "LD [DE], A", Operation::CopyToAddress(Reg::A, Reg16::DE))),
            0x16 => Some(Instruction::new(0x16, "LD D, n8", Operation::Load8(Reg::D))),
            0x1A => Some(Instruction::new(0x1A, "LD A, [DE]", Operation::LoadFromAddress(Reg16::DE, Reg::A))),
            0x1E => Some(Instruction::new(0x1E, "LD E, n8", Operation::Load8(Reg::E))),
            0x21 => Some(Instruction::new(0x21, "LD HL, n16", Operation::Load16(Reg16::HL))),
            0x22 => Some(Instruction::new(0x22, "LD [HL+], A", Operation::StoreHlInc)),
            0x26 => Some(Instruction::new(0x26, "LD H, n8", Operation::Load8(Reg::H))),
            0x2A => Some(Instruction::new(0x2A, "LD A, [HL+]", Operation::LoadHlInc)),
            0x2E => Some(Instruction::new(0x2E, "LD L, n8", Operation::Load8(Reg::L))),
            0x31 => Some(Instruction::new(0x31, "LD SP, n16", Operation::Load16Sp)),
            0x32 => Some(Instruction::new(0x32, "LD [HL-], A", Operation::StoreHlDec)),
            0x36 => Some(Instruction::new(0x36, "LD [HL], n8", Operation::Load8ToHl)),
            0x3A => Some(Instruction::new(0x3A, "LD A, [HL-]", Operation::LoadHlDec)),
            0x3E => Some(Instruction::new(0x3E, "LD A, n8", Operation::Load8(Reg::A))),
            0x40 => Some(Instruction::new(0x40, "LD B, B", Operation::Copy(Reg::B, Reg::B))),
            0x41 => Some(Instruction::new(0x41, "LD B, C", Operation::Copy(Reg::C, Reg::B))),
            0x42 => Some(Instruction::new(0x42, "LD B, D", Operation::Copy(Reg::D, Reg::B))),
            0x43 => Some(Instruction::new(0x43, "LD B, E", Operation::Copy(Reg::E, Reg::B))),
            0x44 => Some(Instruction::new(0x44, "LD B, H", Operation::Copy(Reg::H, Reg::B))),
            0x45 => Some(Instruction::new(0x45, "LD B, L", Operation::Copy(Reg::L, Reg::B))),
            0x46 => Some(Instruction::new(0x46, "LD B, [HL]", Operation::LoadFromAddress(Reg16::HL, Reg::B))),
            0x47 => Some(Instruction::new(0x47, "LD B, A", Operation::Copy(Reg::A, Reg::B))),
            0x48 => Some(Instruction::new(0x48, "LD C, B", Operation::Copy(Reg::B, Reg::C))),
            0x49 => Some(Instruction::new(0x49, "LD C, C", Operation::Copy(Reg::C, Reg::C))),
            0x4A => Some(Instruction::new(0x4A, "LD C, D", Operation::Copy(Reg::D, Reg::C))),
            0x4B => Some(Instruction::new(0x4B, "LD C, E", Operation::Copy(Reg::E, Reg::C))),
            0x4C => Some(Instruction::new(0x4C, "LD C, H", Operation::Copy(Reg::H, Reg::C))),
            0x4D => Some(Instruction::new(0x4D, "LD C, L", Operation::Copy(Reg::L, Reg::C))),
            0x4E => Some(Instruction::new(0x4E, "LD C, [HL]", Operation::LoadFromAddress(Reg16::HL, Reg::C))),
            0x4F => Some(Instruction::new(0x4F, "LD C, A", Operation::Copy(Reg::A, Reg::C))),
            0x50 => Some(Instruction::new(0x50, "LD D, B", Operation::Copy(Reg::B, Reg::D))),
            0x51 => Some(Instruction::new(0x51, "LD D, C", Operation::Copy(Reg::C, Reg::D))),
            0x52 => Some(Instruction::new(0x52, "LD D, D", Operation::Copy(Reg::D, Reg::D))),
            0x53 => Some(Instruction::new(0x53, "LD D, E", Operation::Copy(Reg::E, Reg::D))),
            0x54 => Some(Instruction::new(0x54, "LD D, H", Operation::Copy(Reg::H, Reg::D))),
            0x55 => Some(Instruction::new(0x55, "LD D, L", Operation::Copy(Reg::L, Reg::D))),
            0x56 => Some(Instruction::new(0x56, "LD D, [HL]", Operation::LoadFromAddress(Reg16::HL, Reg::D))),
            0x57 => Some(Instruction::new(0x57, "LD D, A", Operation::Copy(Reg::A, Reg::D))),
            0x58 => Some(Instruction::new(0x58, "LD E, B", Operation::Copy(Reg::B, Reg::E))),
            0x59 => Some(Instruction::new(0x59, "LD E, C", Operation::Copy(Reg::C, Reg::E))),
            0x5A => Some(Instruction::new(0x5A, "LD E, D", Operation::Copy(Reg::D, Reg::E))),
            0x5B => Some(Instruction::new(0x5B, "LD E, E", Operation::Copy(Reg::E, Reg::E))),
            0x5C => Some(Instruction::new(0x5C, "LD E, H", Operation::Copy(Reg::H, Reg::E))),
            0x5D => Some(Instruction::new(0x5D, "LD E, L", Operation::Copy(Reg::L, Reg::E))),
            0x5E => Some(Instruction::new(0x5E, "LD E, [HL]", Operation::LoadFromAddress(Reg16::HL, Reg::E))),
            0x5F => Some(Instruction::new(0x5F, "LD E, A", Operation::Copy(Reg::A, Reg::E))),
            0x60 => Some(Instruction::new(0x60, "LD H, B", Operation::Copy(Reg::B, Reg::H))),
            0x61 => Some(Instruction::new(0x61, "LD H, C", Operation::Copy(Reg::C, Reg::H))),
            0x62 => Some(Instruction::new(0x62, "LD H, D", Operation::Copy(Reg::D, Reg::H))),
            0x63 => Some(Instruction::new(0x63, "LD H, E", Operation::Copy(Reg::E, Reg::H))),
            0x64 => Some(Instruction::new(0x64, "LD H, H", Operation::Copy(Reg::H, Reg::H))),
            0x65 => Some(Instruction::new(0x65, "LD H, L", Operation::Copy(Reg::L, Reg::H))),
            0x66 => Some(Instruction::new(0x66, "LD H, [HL]", Operation::LoadFromAddress(Reg16::HL, Reg::H))),
            0x67 => Some(Instruction::new(0x67, "LD H, A", Operation::Copy(Reg::A, Reg::H))),
            0x68 => Some(Instruction::new(0x68, "LD L, B", Operation::Copy(Reg::B, Reg::L))),
            0x69 => Some(Instruction::new(0x69, "LD L, C", Operation::Copy(Reg::C, Reg::L))),
            0x6A => Some(Instruction::new(0x6A, "LD L, D", Operation::Copy(Reg::D, Reg::L))),
            0x6B => Some(Instruction::new(0x6B, "LD L, E", Operation::Copy(Reg::E, Reg::L))),
            0x6C => Some(Instruction::new(0x6C, "LD L, H", Operation::Copy(Reg::H, Reg::L))),
            0x6D => Some(Instruction::new(0x6D, "LD L, L", Operation::Copy(Reg::L, Reg::L))),
            0x6E => Some(Instruction::new(0x6E, "LD L, [HL]", Operation::LoadFromAddress(Reg16::HL, Reg::L))),
            0x6F => Some(Instruction::new(0x6F, "LD L, A", Operation::Copy(Reg::A, Reg::L))),
            0x70 => Some(Instruction::new(0x70, "LD [HL], B", Operation::CopyToAddress(Reg::B, Reg16::HL))),
            0x71 => Some(Instruction::new(0x71, "LD [HL], C", Operation::CopyToAddress(Reg::C, Reg16::HL))),
            0x72 => Some(Instruction::new(0x72, "LD [HL], D", Operation::CopyToAddress(Reg::D, Reg16::HL))),
            0x73 => Some(Instruction::new(0x73, "LD [HL], E", Operation::CopyToAddress(Reg::E, Reg16::HL))),
            0x74 => Some(Instruction::new(0x74, "LD [HL], H", Operation::CopyToAddress(Reg::H, Reg16::HL))),
            0x75 => Some(Instruction::new(0x75, "LD [HL], L", Operation::CopyToAddress(Reg::L, Reg16::HL))),
            0x77 => Some(Instruction::new(0x77, "LD [HL], A", Operation::CopyToAddress(Reg::A, Reg16::HL))),
            0x78 => Some(Instruction::new(0x78, "LD A, B", Operation::Copy(Reg::B, Reg::A))),
            0x79 => Some(Instruction::new(0x79, "LD A, C", Operation::Copy(Reg::C, Reg::A))),
            0x7A => Some(Instruction::new(0x7A, "LD A, D", Operation::Copy(Reg::D, Reg::A))),
            0x7B => Some(Instruction::new(0x7B, "LD A, E", Operation::Copy(Reg::E, Reg::A))),
            0x7C => Some(Instruction::new(0x7C, "LD A, H", Operation::Copy(Reg::H, Reg::A))),
            0x7D => Some(Instruction::new(0x7D, "LD A, L", Operation::Copy(Reg::L, Reg::A))),
            0x7E => Some(Instruction::new(0x7E, "LD A, [HL]", Operation::LoadFromAddress(Reg16::HL, Reg::A))),
            0x7F => Some(Instruction::new(0x7F, "LD A, A", Operation::Copy(Reg::A, Reg::A))),
            0x80 => Some(Instruction::new(0x80, "ADD A, B", Operation::Add(Reg::B))),
            0x81 => Some(Instruction::new(0x81, "ADD A, C", Operation::Add(Reg::C))),
            0x82 => Some(Instruction::new(0x82, "ADD A, D", Operation::Add(Reg::D))),
            0x83 => Some(Instruction::new(0x83, "ADD A, E", Operation::Add(Reg::E))),
            0x84 => Some(Instruction::new(0x84, "ADD A, H", Operation::Add(Reg::H))),
            0x85 => Some(Instruction::new(0x85, "ADD A, L", Operation::Add(Reg::L))),
            0x87 => Some(Instruction::new(0x87, "ADD A, A", Operation::Add(Reg::A))),
            0x88 => Some(Instruction::new(0x88, "ADC A, B", Operation::Adc(Reg::B))),
            0x89 => Some(Instruction::new(0x89, "ADC A, C", Operation::Adc(Reg::C))),
            0x8A => Some(Instruction::new(0x8A, "ADC A, D", Operation::Adc(Reg::D))),
            0x8B => Some(Instruction::new(0x8B, "ADC A, E", Operation::Adc(Reg::E))),
            0x8C => Some(Instruction::new(0x8C, "ADC A, H", Operation::Adc(Reg::H))),
            0x8D => Some(Instruction::new(0x8D, "ADC A, L", Operation::Adc(Reg::L))),
            0x8F => Some(Instruction::new(0x8F, "ADC A, A", Operation::Adc(Reg::A))),
            0xC6 => Some(Instruction::new(0xC6, "ADD A, n8", Operation::AddImm8)),
            0xE0 => Some(Instruction::new(0xE0, "LDH [n8], A", Operation::StoreHighImm)),
            0xE2 => Some(Instruction::new(0xE2, "LDH [C], A", Operation::StoreHighC)),
            0xEA => Some(Instruction::new(0xEA, "LD [n16], A", Operation::CopyToLoadedAddress(Reg::A))),
            0xF0 => Some(Instruction::new(0xF0, "LDH A, [n8]", Operation::LoadHighImm)),
            0xF2 => Some(Instruction::new(0xF2, "LDH A, [C]", Operation::LoadHighC)),
            0xFA => Some(Instruction::new(0xFA, "LD A, [n16]", Operation::LoadFromLoadedAddress(Reg::A))),
            _ => None,
        }
    }

    /// Performs the instruction's operation and returns the cycles taken.
    pub fn execute(&self, cpu: &mut CPU, mmu: &mut Mmu) -> (cycles: u8)
        ensures
            cycles == self.operation.cycles(),
            final(cpu).cycles == old(cpu).cycles,
            final(cpu).registers == self.operation.registers_after(
                old(cpu).registers,
                old(mmu)@,
            ),
            final(mmu)@ == self.operation.memory_after(old(cpu).registers, old(mmu)@),
    {
        self.operation.execute(cpu, mmu)
    }
}

} // verus!
