//! The step engine: one fetch-decode-execute cycle per call.

use vstd::prelude::*;
use crate::instructions::{decode, Instruction, Operation};
use crate::mmu::{word_at, Mmu};
use crate::registers::Registers;

verus! {

/// The address `bytes` past `addr`, wrapping at the end of the address space.
pub open spec fn advance(addr: u16, bytes: nat) -> u16 {
    ((addr + bytes) % 0x10000) as u16
}

/// The cycle total `total` after an instruction that took `spent` cycles.
/// The total is kept modulo 2^64.
pub open spec fn add_cycles(total: u64, spent: u8) -> u64 {
    ((total + spent) % 0x1_0000_0000_0000_0000) as u64
}

/// A fetched byte that names no operation.
#[derive(Debug, Clone, Copy, PartialEq, Eq)]
pub struct DecodeError {
    /// The byte that was fetched.
    pub opcode: u8,
    /// The address it was fetched from.
    pub address: u16,
}

/// The processor: its register file and the cycles it has spent so far.
#[derive(Debug, Clone, Copy, PartialEq, Eq)]
pub struct CPU {
    /// Total of the cycle counts of the instructions executed, modulo 2^64.
    pub cycles: u64,
    pub registers: Registers,
}

impl CPU {
    /// This processor with the program counter moved `bytes` forward.
    pub open spec fn skip(self, bytes: nat) -> CPU {
        CPU { registers: Registers { pc: advance(self.registers.pc, bytes), ..self.registers }, ..self }
    }

    /// This processor with another register file.
    pub open spec fn with_registers(self, registers: Registers) -> CPU {
        CPU { registers, ..self }
    }

    /// The byte that the next step fetches as its opcode.
    pub open spec fn next_opcode(self, mem: Seq<u8>) -> u8 {
        mem[self.registers.pc as int]
    }

    /// What one step returns: the cycles of the instruction at the program
    /// counter, or the decode failure where the byte there names no
    /// operation.
    pub open spec fn step_result(self, mem: Seq<u8>) -> Result<u8, DecodeError> {
        match decode(self.next_opcode(mem)) {
            Some(operation) => Ok(operation.cycles()),
            None => Err(
                DecodeError { opcode: self.next_opcode(mem), address: self.registers.pc },
            ),
        }
    }

    /// The processor after one step. The program counter moves past the
    /// opcode byte; an operation then runs on those registers and its cycles
    /// are added to the total; a byte that names none changes nothing more.
    pub open spec fn after_step(self, mem: Seq<u8>) -> CPU {
        match decode(self.next_opcode(mem)) {
            Some(operation) => CPU {
                cycles: add_cycles(self.cycles, operation.cycles()),
                registers: operation.registers_after(self.skip(1).registers, mem),
            },
            None => self.skip(1),
        }
    }

    /// The memory after one step.
    pub open spec fn memory_after_step(self, mem: Seq<u8>) -> Seq<u8> {
        match decode(self.next_opcode(mem)) {
            Some(operation) => operation.memory_after(self.skip(1).registers, mem),
            None => mem,
        }
    }

    /// A processor with zeroed registers that has spent no cycles.
    pub fn new() -> (cpu: CPU)
        ensures
            cpu == (CPU { cycles: 0, registers: Registers::zeroed() }),
    {
        CPU { cycles: 0, registers: Registers::new() }
    }

    /// Reads the byte at the program counter and moves the counter past it.
    pub fn fetch_immediate_byte(&mut self, mmu: &Mmu) -> (value: u8)
        ensures
            value == mmu@[old(self).registers.pc as int],
            *final(self) == old(self).skip(1),
    {
        let value = mmu.read_byte(self.registers.pc);
        self.registers.pc = self.registers.pc.wrapping_add(1);
        value
    }

    /// Reads the little-endian word at the program counter and moves the
    /// counter past it.
    pub fn fetch_immediate_word(&mut self, mmu: &Mmu) -> (value: u16)
        ensures
            value == word_at(mmu@, old(self).registers.pc),
            *final(self) == old(self).skip(2),
    {
        let value = mmu.read_word(self.registers.pc);
        self.registers.pc = self.registers.pc.wrapping_add(2);
        value
    }

    /// Executes the instruction at the program counter: fetches the opcode
    /// byte, moves the counter past it, looks the byte up and performs the
    /// operation, and adds its cycles to the total. Returns those cycles.
    ///
    /// Where the byte names no operation, returns the decode failure with
    /// the byte and its address; the counter has then moved past the byte
    /// and nothing else has changed.
    pub fn step(&mut self, mmu: &mut Mmu) -> (result: Result<u8, DecodeError>)
        ensures
            result == old(self).step_result(old(mmu)@),
            *final(self) == old(self).after_step(old(mmu)@),
            final(mmu)@ == old(self).memory_after_step(old(mmu)@),
    {
        let address = self.registers.pc;
        let byte = self.fetch_immediate_byte(mmu);

        match Instruction::from_byte(byte) {
            Some(instruction) => {
                let cycles = instruction.execute(self, mmu);
                self.cycles = self.cycles.wrapping_add(cycles as u64);
                Ok(cycles)
            },
            None => Err(DecodeError { opcode: byte, address }),
        }
    }
}

/// A step moves the program counter by exactly the length of the
/// instruction it executes: the opcode byte and the immediate bytes.
pub proof fn lemma_step_advances_pc(cpu: CPU, mem: Seq<u8>, operation: Operation)
    requires
        decode(cpu.next_opcode(mem)) == Some(operation),
    ensures
        cpu.after_step(mem).registers.pc == advance(cpu.registers.pc, operation.length()),
        1 <= operation.length() <= 3,
{
}

/// An operation moves the program counter by exactly the number of
/// immediate bytes it consumes.
pub proof fn lemma_operation_advances_pc(operation: Operation, regs: Registers, mem: Seq<u8>)
    ensures
        operation.registers_after(regs, mem).pc == advance(regs.pc, operation.operand_len()),
{
}

/// A step adds the cycles of the instruction it executes to the total; as
/// long as the total fits in 64 bits it is the plain sum.
pub proof fn lemma_step_adds_cycles(cpu: CPU, mem: Seq<u8>, operation: Operation)
    requires
        decode(cpu.next_opcode(mem)) == Some(operation),
    ensures
        cpu.step_result(mem) == Ok::<u8, DecodeError>(operation.cycles()),
        cpu.after_step(mem).cycles == add_cycles(cpu.cycles, operation.cycles()),
        cpu.cycles + operation.cycles() <= u64::MAX ==> cpu.after_step(mem).cycles == cpu.cycles
            + operation.cycles(),
        4 <= operation.cycles() <= 20,
{
}

/// A byte that names no operation is reported, with its address, and is
/// stepped over: the registers but for the program counter, the cycle
/// total and the memory stay as they were.
pub proof fn lemma_decode_failure(cpu: CPU, mem: Seq<u8>)
    requires
        decode(cpu.next_opcode(mem)) is None,
    ensures
        cpu.step_result(mem) == Err::<u8, DecodeError>(
            DecodeError { opcode: cpu.next_opcode(mem), address: cpu.registers.pc },
        ),
        cpu.after_step(mem) == cpu.skip(1),
        cpu.memory_after_step(mem) == mem,
{
}

/// HALT, `0x76`, names no operation.
pub proof fn lemma_halt_is_no_operation()
    ensures
        decode(0x76) is None,
{
}

} // verus!
