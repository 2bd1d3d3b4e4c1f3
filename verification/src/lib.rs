//! Instruction-execution core of a Sharp LR35902 (Game Boy) CPU emulator.
//!
//! The crate models a flat 64 KiB memory, the register file with its
//! 8-bit/16-bit aliasing, the opcode table and a fetch-decode-execute step.

pub mod cpu;
pub mod instructions;
pub mod mmu;
pub mod registers;
pub mod utils;
