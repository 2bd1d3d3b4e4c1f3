//! One routine per operation. Each performs the operation's effect on the
//! registers and the memory, moves the program counter past the immediate
//! bytes it consumes, and returns the cycles the instruction takes.

use vstd::prelude::*;
use crate::cpu::CPU;
use crate::mmu::{Mmu, next_addr, word_at, with_word};
use crate::registers::{Flag, Reg, Reg16, RegisterFlags, Registers};
use crate::utils::{half_carry, has_half_carry};

verus! {

/// The address before `addr`; the one before `0` is `0xFFFF`.
pub open spec fn prev_addr(addr: u16) -> u16 {
    if addr == 0 {
        0xFFFF
    } else {
        (addr - 1) as u16
    }
}

/// The address in the high page `0xFF00..=0xFFFF` at `offset`.
pub open spec fn high_page(offset: u8) -> u16 {
    (0xFF00 + offset) as u16
}

/// `1` for a carry that is set, `0` for one that is clear.
pub open spec fn carry_value(carry_in: bool) -> int {
    if carry_in {
        1
    } else {
        0
    }
}

/// The untruncated sum of an 8-bit addition with carry-in.
pub open spec fn add_sum(a: u8, operand: u8, carry_in: bool) -> int {
    a + operand + carry_value(carry_in)
}

/// The flags after an arithmetic operation: zero is set exactly when the
/// 8-bit result is zero; `subtract` is false for additions and true for
/// subtractions and comparisons.
pub open spec fn alu_flags(result: u8, subtract: bool, half_carry: bool, carry: bool)
    -> RegisterFlags {
    RegisterFlags { zero: result == 0, subtract, half_carry, carry }
}

/// The register file after `operand` and the carry-in are added to A: A
/// holds the sum truncated to 8 bits, carry is set when the sum exceeds
/// `0xFF`, half-carry when the low nibbles carry into bit 4.
pub open spec fn alu_add(regs: Registers, operand: u8, carry_in: bool) -> Registers {
    let result = (add_sum(regs.a, operand, carry_in) % 0x100) as u8;
    Registers {
        a: result,
        f: alu_flags(
            result,
            false,
            half_carry(regs.a, operand, carry_in),
            add_sum(regs.a, operand, carry_in) > 0xFF,
        ),
        ..regs
    }
}

/// Sets the four flags after an arithmetic operation with 8-bit `result`.
pub fn set_alu_flags(cpu: &mut CPU, result: u8, subtract: bool, half_carry: bool, carry: bool)
    ensures
        *final(cpu) == old(cpu).with_registers(
            Registers { f: alu_flags(result, subtract, half_carry, carry), ..old(cpu).registers },
        ),
{
    cpu.registers.set_flag(Flag::Z, result == 0);
    cpu.registers.set_flag(Flag::N, subtract);
    cpu.registers.set_flag(Flag::H, half_carry);
    cpu.registers.set_flag(Flag::C, carry);
}

/// NOP: does nothing.
pub fn nop(cpu: &mut CPU) -> (cycles: u8)
    ensures
        cycles == 4,
        *final(cpu) == *old(cpu),
{
    4
}

/// LD r, r': copies register `from` into register `to`.
pub fn ld(cpu: &mut CPU, from: Reg, to: Reg) -> (cycles: u8)
    ensures
        cycles == 4,
        *final(cpu) == old(cpu).with_registers(
            old(cpu).registers.spec_write_reg(to, old(cpu).registers.spec_read_reg(from)),
        ),
{
    let value = cpu.registers.read_reg(from);
    cpu.registers.write_reg(to, value);

    4
}

/// LD r, n8: loads the immediate byte into register `to`.
pub fn ld_imm8(cpu: &mut CPU, mmu: &mut Mmu, to: Reg) -> (cycles: u8)
    ensures
        cycles == 8,
        final(mmu)@ == old(mmu)@,
        *final(cpu) == old(cpu).skip(1).with_registers(
            old(cpu).skip(1).registers.spec_write_reg(to, old(mmu)@[old(cpu).registers.pc as int]),
        ),
{
    let value = cpu.fetch_immediate_byte(mmu);
    cpu.registers.write_reg(to, value);

    8
}

/// LD [HL], r: stores register `from` at the address in HL.
pub fn ld_reg_hl(cpu: &mut CPU, mmu: &mut Mmu, from: Reg) -> (cycles: u8)
    ensures
        cycles == 8,
        *final(cpu) == *old(cpu),
        final(mmu)@ == old(mmu)@.update(
            old(cpu).registers.spec_read_pair(Reg16::HL) as int,
            old(cpu).registers.spec_read_reg(from),
        ),
{
    let addr = cpu.registers.read_pair(Reg16::HL);
    let value = cpu.registers.read_reg(from);
    mmu.write_byte(addr, value);

    8
}

/// LD [rr], r: stores register `from` at the address in the pair `to`.
pub fn ld_reg_addr(cpu: &mut CPU, mmu: &mut Mmu, from: Reg, to: Reg16) -> (cycles: u8)
    ensures
        cycles == 8,
        *final(cpu) == *old(cpu),
        final(mmu)@ == old(mmu)@.update(
            old(cpu).registers.spec_read_pair(to) as int,
            old(cpu).registers.spec_read_reg(from),
        ),
{
    let addr = cpu.registers.read_pair(to);
    let value = cpu.registers.read_reg(from);
    mmu.write_byte(addr, value);

    8
}

/// LD rr, n16: loads the immediate little-endian word into the pair `reg`.
pub fn ld_imm16(cpu: &mut CPU, mmu: &mut Mmu, reg: Reg16) -> (cycles: u8)
    ensures
        cycles == 12,
        final(mmu)@ == old(mmu)@,
        *final(cpu) == old(cpu).skip(2).with_registers(
            old(cpu).skip(2).registers.spec_write_pair(
                reg,
                word_at(old(mmu)@, old(cpu).registers.pc),
            ),
        ),
{
    let value = cpu.fetch_immediate_word(mmu);
    cpu.registers.write_pair(reg, value);

    12
}

/// LD SP, n16: loads the immediate little-endian word into the stack pointer.
pub fn ld_imm16_sp(cpu: &mut CPU, mmu: &mut Mmu) -> (cycles: u8)
    ensures
        cycles == 12,
        final(mmu)@ == old(mmu)@,
        *final(cpu) == old(cpu).skip(2).with_registers(
            Registers { sp: word_at(old(mmu)@, old(cpu).registers.pc), ..old(cpu).skip(2).registers },
        ),
{
    let value = cpu.fetch_immediate_word(mmu);
    cpu.registers.sp = value;

    12
}

/// LD [HL], n8: stores the immediate byte at the address in HL.
pub fn ld_imm8_hl(cpu: &mut CPU, mmu: &mut Mmu) -> (cycles: u8)
    ensures
        cycles == 12,
        *final(cpu) == old(cpu).skip(1),
        final(mmu)@ == old(mmu)@.update(
            old(cpu).registers.spec_read_pair(Reg16::HL) as int,
            old(mmu)@[old(cpu).registers.pc as int],
        ),
{
    let value = cpu.fetch_immediate_byte(mmu);
    let addr = cpu.registers.read_pair(Reg16::HL);
    mmu.write_byte(addr, value);

    12
}

/// LD [n16], r: stores register `from` at the immediate address.
pub fn ld_reg_imm_addr(cpu: &mut CPU, mmu: &mut Mmu, from: Reg) -> (cycles: u8)
    ensures
        cycles == 16,
        *final(cpu) == old(cpu).skip(2),
        final(mmu)@ == old(mmu)@.update(
            word_at(old(mmu)@, old(cpu).registers.pc) as int,
            old(cpu).registers.spec_read_reg(from),
        ),
{
    let addr = cpu.fetch_immediate_word(mmu);
    let value = cpu.registers.read_reg(from);
    mmu.write_byte(addr, value);

    16
}

/// LD r, [n16]: loads register `to` from the immediate address.
pub fn ld_imm_addr_reg(cpu: &mut CPU, mmu: &mut Mmu, to: Reg) -> (cycles: u8)
    ensures
        cycles == 16,
        final(mmu)@ == old(mmu)@,
        *final(cpu) == old(cpu).skip(2).with_registers(
            old(cpu).skip(2).registers.spec_write_reg(
                to,
                old(mmu)@[word_at(old(mmu)@, old(cpu).registers.pc) as int],
            ),
        ),
{
    let addr = cpu.fetch_immediate_word(mmu);
    let value = mmu.read_byte(addr);
    cpu.registers.write_reg(to, value);

    16
}

/// LD r, [rr]: loads register `to` from the address in the pair `reg_addr`.
pub fn ld_addr_reg(cpu: &mut CPU, mmu: &mut Mmu, reg_addr: Reg16, to: Reg) -> (cycles: u8)
    ensures
        cycles == 8,
        final(mmu)@ == old(mmu)@,
        *final(cpu) == old(cpu).with_registers(
            old(cpu).registers.spec_write_reg(
                to,
                old(mmu)@[old(cpu).registers.spec_read_pair(reg_addr) as int],
            ),
        ),
{
    let addr = cpu.registers.read_pair(reg_addr);
    let value = mmu.read_byte(addr);
    cpu.registers.write_reg(to, value);
    8
}

/// LD [HL+], A: stores A at the address in HL, then adds one to HL,
/// wrapping from `0xFFFF` to `0`.
pub fn ld_hl_inc_a(cpu: &mut CPU, mmu: &mut Mmu) -> (cycles: u8)
    ensures
        cycles == 8,
        final(mmu)@ == old(mmu)@.update(
            old(cpu).registers.spec_read_pair(Reg16::HL) as int,
            old(cpu).registers.a,
        ),
        *final(cpu) == old(cpu).with_registers(
            old(cpu).registers.spec_write_pair(
                Reg16::HL,
                next_addr(old(cpu).registers.spec_read_pair(Reg16::HL)),
            ),
        ),
{
    ld_reg_hl(cpu, mmu, Reg::A);
    let hl = cpu.registers.read_hl();
    cpu.registers.write_hl(hl.wrapping_add(1));
    8
}

/// LD [HL-], A: stores A at the address in HL, then subtracts one from HL,
/// wrapping from `0` to `0xFFFF`.
pub fn ld_hl_dec_a(cpu: &mut CPU, mmu: &mut Mmu) -> (cycles: u8)
    ensures
        cycles == 8,
        final(mmu)@ == old(mmu)@.update(
            old(cpu).registers.spec_read_pair(Reg16::HL) as int,
            old(cpu).registers.a,
        ),
        *final(cpu) == old(cpu).with_registers(
            old(cpu).registers.spec_write_pair(
                Reg16::HL,
                prev_addr(old(cpu).registers.spec_read_pair(Reg16::HL)),
            ),
        ),
{
    ld_reg_hl(cpu, mmu, Reg::A);
    let hl = cpu.registers.read_hl();
    cpu.registers.write_hl(hl.wrapping_sub(1));
    8
}

/// LD A, [HL+]: loads A from the address in HL, then adds one to HL,
/// wrapping from `0xFFFF` to `0`.
pub fn ld_a_hl_inc(cpu: &mut CPU, mmu: &mut Mmu) -> (cycles: u8)
    ensures
        cycles == 8,
        final(mmu)@ == old(mmu)@,
        *final(cpu) == old(cpu).with_registers(
            old(cpu).registers.spec_write_reg(
                Reg::A,
                old(mmu)@[old(cpu).registers.spec_read_pair(Reg16::HL) as int],
            ).spec_write_pair(Reg16::HL, next_addr(old(cpu).registers.spec_read_pair(Reg16::HL))),
        ),
{
    let hl = cpu.registers.read_hl();
    let value = mmu.read_byte(hl);
    cpu.registers.a = value;
    cpu.registers.write_hl(hl.wrapping_add(1));
    8
}

/// LD A, [HL-]: loads A from the address in HL, then subtracts one from HL,
/// wrapping from `0` to `0xFFFF`.
pub fn ld_a_hl_dec(cpu: &mut CPU, mmu: &mut Mmu) -> (cycles: u8)
    ensures
        cycles == 8,
        final(mmu)@ == old(mmu)@,
        *final(cpu) == old(cpu).with_registers(
            old(cpu).registers.spec_write_reg(
                Reg::A,
                old(mmu)@[old(cpu).registers.spec_read_pair(Reg16::HL) as int],
            ).spec_write_pair(Reg16::HL, prev_addr(old(cpu).registers.spec_read_pair(Reg16::HL))),
        ),
{
    let hl = cpu.registers.read_hl();
    let value = mmu.read_byte(hl);
    cpu.registers.a = value;
    cpu.registers.write_hl(hl.wrapping_sub(1));
    8
}

/// The address in the high page at `offset`.
pub fn high_page_addr(offset: u8) -> (addr: u16)
    ensures
        addr == high_page(offset),
        addr >= 0xFF00,
{
    0xFF00u16 + offset as u16
}

/// LDH [n8], A: stores A in the high page, at the immediate offset.
pub fn ldh_imm8_a(cpu: &mut CPU, mmu: &mut Mmu) -> (cycles: u8)
    ensures
        cycles == 12,
        *final(cpu) == old(cpu).skip(1),
        final(mmu)@ == old(mmu)@.update(
            high_page(old(mmu)@[old(cpu).registers.pc as int]) as int,
            old(cpu).registers.a,
        ),
{
    let value = cpu.registers.a;
    let offset = cpu.fetch_immediate_byte(mmu);
    let addr = high_page_addr(offset);
    mmu.write_byte(addr, value);
    12
}

/// LDH [C], A: stores A in the high page, at the offset in C.
pub fn ldh_c_a(cpu: &mut CPU, mmu: &mut Mmu) -> (cycles: u8)
    ensures
        cycles == 8,
        *final(cpu) == *old(cpu),
        final(mmu)@ == old(mmu)@.update(
            high_page(old(cpu).registers.c) as int,
            old(cpu).registers.a,
        ),
{
    let offset = cpu.registers.c;
    let addr = high_page_addr(offset);
    let value = cpu.registers.a;
    mmu.write_byte(addr, value);
    8
}

/// LDH A, [n8]: loads A from the high page, at the immediate offset.
pub fn ldh_a_imm8(cpu: &mut CPU, mmu: &mut Mmu) -> (cycles: u8)
    ensures
        cycles == 12,
        final(mmu)@ == old(mmu)@,
        *final(cpu) == old(cpu).skip(1).with_registers(
            Registers {
                a: old(mmu)@[high_page(old(mmu)@[old(cpu).registers.pc as int]) as int],
                ..old(cpu).skip(1).registers
            },
        ),
{
    let offset = cpu.fetch_immediate_byte(mmu);
    let addr = high_page_addr(offset);
    let value = mmu.read_byte(addr);
    cpu.registers.a = value;
    12
}

/// LDH A, [C]: loads A from the high page, at the offset in C.
pub fn ldh_a_c(cpu: &mut CPU, mmu: &mut Mmu) -> (cycles: u8)
    ensures
        cycles == 8,
        final(mmu)@ == old(mmu)@,
        *final(cpu) == old(cpu).with_registers(
            Registers { a: old(mmu)@[high_page(old(cpu).registers.c) as int], ..old(cpu).registers },
        ),
{
    let offset = cpu.registers.c;
    let addr = high_page_addr(offset);
    let value = mmu.read_byte(addr);
    cpu.registers.a = value;

    8
}

/// LD [n16], SP: stores the stack pointer at the immediate address, low
/// byte first.
pub fn ld_imm_addr_sp(cpu: &mut CPU, mmu: &mut Mmu) -> (cycles: u8)
    ensures
        cycles == 20,
        *final(cpu) == old(cpu).skip(2),
        final(mmu)@ == with_word(
            old(mmu)@,
            word_at(old(mmu)@, old(cpu).registers.pc),
            old(cpu).registers.sp,
        ),
{
    let addr = cpu.fetch_immediate_word(mmu);
    let sp = cpu.registers.sp;
    mmu.write_word(addr, sp);
    20
}

/// ADD A, r: adds register `from` to A and sets the flags.
pub fn add(cpu: &mut CPU, from: Reg) -> (cycles: u8)
    ensures
        cycles == 4,
        *final(cpu) == old(cpu).with_registers(
            alu_add(old(cpu).registers, old(cpu).registers.spec_read_reg(from), false),
        ),
{
    let a = cpu.registers.read_reg(Reg::A);
    let value = cpu.registers.read_reg(from);
    let result = a.wrapping_add(value);
    let did_overflow = value > 0xFF - a;

    cpu.registers.write_reg(Reg::A, result);
    set_alu_flags(cpu, result, false, has_half_carry(a, value), did_overflow);

    4
}

/// ADC A, r: adds register `from` and the carry flag to A and sets the
/// flags.
pub fn adc(cpu: &mut CPU, from: Reg) -> (cycles: u8)
    ensures
        cycles == 4,
        *final(cpu) == old(cpu).with_registers(
            alu_add(
                old(cpu).registers,
                old(cpu).registers.spec_read_reg(from),
                old(cpu).registers.f.carry,
            ),
        ),
{
    let a = cpu.registers.read_reg(Reg::A) as u16;
    let value = cpu.registers.read_reg(from) as u16;
    let carry: u16 = if cpu.registers.get_flag(Flag::C) { 1 } else { 0 };

    let result: u16 = a + value + carry;
    assert(a & 0x0F <= 0x0F) by (bit_vector);
    assert(value & 0x0F <= 0x0F) by (bit_vector);
    assert(result & 0xFF == result % 0x100) by (bit_vector);
    assert((a as u8) & 0x0F == a & 0x0F) by (bit_vector)
        requires
            a <= 0xFF,
    ;
    assert((value as u8) & 0x0F == value & 0x0F) by (bit_vector)
        requires
            value <= 0xFF,
    ;
    let low = (result & 0xFF) as u8;

    cpu.registers.write_reg(Reg::A, low);
    set_alu_flags(cpu, low, false, ((a & 0x0F) + (value & 0x0F) + carry) > 0x0F, result > 0xFF);

    4
}

/// ADD A, n8: adds the immediate byte to A and sets the flags.
pub fn add_imm8(cpu: &mut CPU, mmu: &mut Mmu) -> (cycles: u8)
    ensures
        cycles == 8,
        final(mmu)@ == old(mmu)@,
        *final(cpu) == old(cpu).skip(1).with_registers(
            alu_add(old(cpu).skip(1).registers, old(mmu)@[old(cpu).registers.pc as int], false),
        ),
{
    let a = cpu.registers.read_reg(Reg::A);
    let value = cpu.fetch_immediate_byte(mmu);
    let result = a.wrapping_add(value);
    let did_overflow = value > 0xFF - a;

    cpu.registers.write_reg(Reg::A, result);
    set_alu_flags(cpu, result, false, has_half_carry(a, value), did_overflow);

    8
}

} // verus!
