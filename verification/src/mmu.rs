//! The memory: a flat array of 65536 bytes, addressed by a 16-bit value.

use vstd::prelude::*;
use crate::utils::{hi_byte, join_bytes, join_hi_lo, lemma_join_split, lo_byte, split_hi_lo};

verus! {

/// Number of bytes in the address space.
pub const MEMORY_SIZE: usize = 0x10000;

/// The address that follows `addr`; the one after `0xFFFF` is `0`.
pub open spec fn next_addr(addr: u16) -> u16 {
    if addr == 0xFFFF {
        0
    } else {
        (addr + 1) as u16
    }
}

/// The little-endian word at `addr`: the byte at `addr` is the low byte, the
/// byte at the next address the high byte.
pub open spec fn word_at(memory: Seq<u8>, addr: u16) -> u16 {
    join_bytes(memory[next_addr(addr) as int], memory[addr as int])
}

/// `memory` with the little-endian word `value` stored at `addr`.
pub open spec fn with_word(memory: Seq<u8>, addr: u16, value: u16) -> Seq<u8> {
    memory.update(addr as int, lo_byte(value)).update(next_addr(addr) as int, hi_byte(value))
}

/// The memory of the machine.
pub struct Mmu {
    pub memory: [u8; MEMORY_SIZE],
}

impl View for Mmu {
    type V = Seq<u8>;

    /// The bytes of the memory, by address.
    open spec fn view(&self) -> Seq<u8> {
        self.memory@
    }
}

impl Mmu {
    /// A memory of 65536 zero bytes.
    pub fn new() -> (mmu: Mmu)
        ensures
            mmu@.len() == MEMORY_SIZE,
            forall|addr: int| 0 <= addr < MEMORY_SIZE ==> mmu@[addr] == 0,
    {
        Mmu { memory: [0;MEMORY_SIZE] }
    }

    /// Reads the byte at `addr`.
    pub fn read_byte(&self, addr: u16) -> (value: u8)
        ensures
            value == self@[addr as int],
    {
        self.memory[addr as usize]
    }

    /// Reads the little-endian word at `addr`. At `0xFFFF` the high byte
    /// comes from address `0`.
    pub fn read_word(&self, addr: u16) -> (value: u16)
        ensures
            value == word_at(self@, addr),
    {
        let low = self.memory[addr as usize];
        let high = self.memory[addr.wrapping_add(1) as usize];
        join_hi_lo(high, low)
    }

    /// Stores `value` at `addr` and leaves every other byte as it was.
    pub fn write_byte(&mut self, addr: u16, value: u8)
        ensures
            final(self)@ == old(self)@.update(addr as int, value),
    {
        self.memory[addr as usize] = value;
    }

    /// Stores the little-endian word `value` at `addr`: the low byte at
    /// `addr`, the high byte at the next address.
    pub fn write_word(&mut self, addr: u16, value: u16)
        ensures
            final(self)@ == with_word(old(self)@, addr, value),
    {
        let (hi, lo) = split_hi_lo(value);
        self.write_byte(addr, lo);
        self.write_byte(addr.wrapping_add(1), hi);
    }
}

/// A word that was stored is read back unchanged, at every address.
pub proof fn lemma_word_round_trip(memory: Seq<u8>, addr: u16, value: u16)
    requires
        memory.len() == MEMORY_SIZE,
    ensures
        word_at(with_word(memory, addr, value), addr) == value,
{
    lemma_join_split(value);
}

} // verus!
