//! The register file: seven 8-bit registers, the flags, SP and PC.

use vstd::prelude::*;
use crate::utils::{hi_byte, join_bytes, join_hi_lo, lemma_join_split, lo_byte, split_hi_lo};

verus! {

/// An 8-bit register.
#[derive(Debug, Clone, Copy, PartialEq, Eq)]
pub enum Reg {
    A,
    B,
    C,
    D,
    E,
    H,
    L,
}

/// A 16-bit pair made of two 8-bit registers, high byte first.
///
/// SP and PC are not pairs: they have no 8-bit halves and are plain fields
/// of [`Registers`].
#[derive(Debug, Clone, Copy, PartialEq, Eq)]
pub enum Reg16 {
    BC,
    DE,
    HL,
}

/// A condition flag.
#[derive(Debug, Clone, Copy, PartialEq, Eq)]
pub enum Flag {
    /// Zero.
    Z,
    /// Subtract.
    N,
    /// Half-carry.
    H,
    /// Carry.
    C,
}

/// The four condition flags.
///
/// As a byte they occupy the high nibble; the low nibble of that byte is
/// always zero, which this representation cannot violate.
#[derive(Debug, Clone, Copy, PartialEq, Eq)]
pub struct RegisterFlags {
    pub zero: bool,
    pub subtract: bool,
    pub half_carry: bool,
    pub carry: bool,
}

impl RegisterFlags {
    /// Bit of the zero flag in the packed byte.
    pub const Z: u8 = 0x80;

    /// Bit of the subtract flag in the packed byte.
    pub const N: u8 = 0x40;

    /// Bit of the half-carry flag in the packed byte.
    pub const H: u8 = 0x20;

    /// Bit of the carry flag in the packed byte.
    pub const C: u8 = 0x10;

    /// The flags packed into a byte.
    pub open spec fn packed(self) -> u8 {
        ((if self.zero { 0x80int } else { 0int })
            + (if self.subtract { 0x40int } else { 0int })
            + (if self.half_carry { 0x20int } else { 0int })
            + (if self.carry { 0x10int } else { 0int })) as u8
    }

    /// The flags that the high nibble of `byte` holds.
    pub open spec fn unpacked(byte: u8) -> RegisterFlags {
        RegisterFlags {
            zero: byte & 0x80 != 0,
            subtract: byte & 0x40 != 0,
            half_carry: byte & 0x20 != 0,
            carry: byte & 0x10 != 0,
        }
    }

    /// The value of one flag.
    pub open spec fn spec_get(self, flag: Flag) -> bool {
        match flag {
            Flag::Z => self.zero,
            Flag::N => self.subtract,
            Flag::H => self.half_carry,
            Flag::C => self.carry,
        }
    }

    /// These flags with one of them replaced.
    pub open spec fn spec_set(self, flag: Flag, state: bool) -> RegisterFlags {
        match flag {
            Flag::Z => RegisterFlags { zero: state, ..self },
            Flag::N => RegisterFlags { subtract: state, ..self },
            Flag::H => RegisterFlags { half_carry: state, ..self },
            Flag::C => RegisterFlags { carry: state, ..self },
        }
    }

    /// All flags clear.
    pub fn new() -> (flags: RegisterFlags)
        ensures
            flags == (RegisterFlags { zero: false, subtract: false, half_carry: false, carry: false }),
    {
        RegisterFlags { zero: false, subtract: false, half_carry: false, carry: false }
    }

    /// Packs the flags into the high nibble of a byte.
    pub fn to_byte(&self) -> (byte: u8)
        ensures
            byte == self.packed(),
    {
        let z: u8 = if self.zero { 0x80 } else { 0 };
        let n: u8 = if self.subtract { 0x40 } else { 0 };
        let h: u8 = if self.half_carry { 0x20 } else { 0 };
        let c: u8 = if self.carry { 0x10 } else { 0 };
        z + n + h + c
    }

    /// Reads the flags from the high nibble of a byte; the low nibble is ignored.
    pub fn from_byte(byte: u8) -> (flags: RegisterFlags)
        ensures
            flags == RegisterFlags::unpacked(byte),
    {
        RegisterFlags {
            zero: byte & 0x80 != 0,
            subtract: byte & 0x40 != 0,
            half_carry: byte & 0x20 != 0,
            carry: byte & 0x10 != 0,
        }
    }

    /// Reads one flag.
    pub fn get(&self, flag: Flag) -> (state: bool)
        ensures
            state == self.spec_get(flag),
    {
        match flag {
            Flag::Z => self.zero,
            Flag::N => self.subtract,
            Flag::H => self.half_carry,
            Flag::C => self.carry,
        }
    }

    /// Writes one flag and leaves the others as they were.
    pub fn set(&mut self, flag: Flag, state: bool)
        ensures
            *final(self) == old(self).spec_set(flag, state),
    {
        match flag {
            Flag::Z => {
                self.zero = state;
            },
            Flag::N => {
                self.subtract = state;
            },
            Flag::H => {
                self.half_carry = state;
            },
            Flag::C => {
                self.carry = state;
            },
        }
    }
}

/// A byte that is the sum of the four flag bits has exactly those bits set.
proof fn lemma_packed_bits(z: bool, n: bool, h: bool, c: bool, byte: u8)
    requires
        byte == (if z { 0x80int } else { 0int }) + (if n { 0x40int } else { 0int }) + (if h {
            0x20int
        } else {
            0int
        }) + (if c { 0x10int } else { 0int }),
    ensures
        (byte & 0x80 != 0) == z,
        (byte & 0x40 != 0) == n,
        (byte & 0x20 != 0) == h,
        (byte & 0x10 != 0) == c,
        byte & 0x0F == 0,
{
    let zb: u8 = if z { 0x80 } else { 0 };
    let nb: u8 = if n { 0x40 } else { 0 };
    let hb: u8 = if h { 0x20 } else { 0 };
    let cb: u8 = if c { 0x10 } else { 0 };
    assert(byte == zb + nb + hb + cb);
    assert((zb == 0x80 || zb == 0) && (nb == 0x40 || nb == 0) && (hb == 0x20 || hb == 0) && (cb
        == 0x10 || cb == 0) && byte == zb + nb + hb + cb ==> ((byte & 0x80 != 0) == (zb == 0x80))
        && ((byte & 0x40 != 0) == (nb == 0x40)) && ((byte & 0x20 != 0) == (hb == 0x20)) && ((byte
        & 0x10 != 0) == (cb == 0x10)) && byte & 0x0F == 0) by (bit_vector);
}

/// Packing flags and unpacking the byte gives the flags back, and the packed
/// byte has no bit in its low nibble.
pub proof fn lemma_unpack_pack(flags: RegisterFlags)
    ensures
        RegisterFlags::unpacked(flags.packed()) == flags,
        flags.packed() & 0x0F == 0,
{
    lemma_packed_bits(flags.zero, flags.subtract, flags.half_carry, flags.carry, flags.packed());
}

/// Unpacking a byte and packing the flags keeps the high nibble and clears
/// the low one.
pub proof fn lemma_pack_unpack(byte: u8)
    ensures
        RegisterFlags::unpacked(byte).packed() == byte & 0xF0,
{
    let z: u8 = if byte & 0x80 != 0 { 0x80 } else { 0 };
    let n: u8 = if byte & 0x40 != 0 { 0x40 } else { 0 };
    let h: u8 = if byte & 0x20 != 0 { 0x20 } else { 0 };
    let c: u8 = if byte & 0x10 != 0 { 0x10 } else { 0 };
    assert(z == byte & 0x80 && n == byte & 0x40 && h == byte & 0x20 && c == byte & 0x10 ==> z + n
        + h + c == byte & 0xF0) by (bit_vector);
    assert(byte & 0x80 == 0 || byte & 0x80 == 0x80) by (bit_vector);
    assert(byte & 0x40 == 0 || byte & 0x40 == 0x40) by (bit_vector);
    assert(byte & 0x20 == 0 || byte & 0x20 == 0x20) by (bit_vector);
    assert(byte & 0x10 == 0 || byte & 0x10 == 0x10) by (bit_vector);
}

/// The register file.
#[derive(Debug, Clone, Copy, PartialEq, Eq)]
pub struct Registers {
    pub a: u8,
    pub b: u8,
    pub c: u8,
    pub d: u8,
    pub e: u8,
    pub h: u8,
    pub l: u8,
    /// Stack pointer.
    pub sp: u16,
    /// Program counter.
    pub pc: u16,
    /// Condition flags.
    pub f: RegisterFlags,
}

impl Registers {
    /// The value of an 8-bit register.
    pub open spec fn spec_read_reg(self, r: Reg) -> u8 {
        match r {
            Reg::A => self.a,
            Reg::B => self.b,
            Reg::C => self.c,
            Reg::D => self.d,
            Reg::E => self.e,
            Reg::H => self.h,
            Reg::L => self.l,
        }
    }

    /// This register file with one 8-bit register replaced.
    pub open spec fn spec_write_reg(self, r: Reg, value: u8) -> Registers {
        match r {
            Reg::A => Registers { a: value, ..self },
            Reg::B => Registers { b: value, ..self },
            Reg::C => Registers { c: value, ..self },
            Reg::D => Registers { d: value, ..self },
            Reg::E => Registers { e: value, ..self },
            Reg::H => Registers { h: value, ..self },
            Reg::L => Registers { l: value, ..self },
        }
    }

    /// The register that holds the high byte of a pair.
    pub open spec fn high_of(p: Reg16) -> Reg {
        match p {
            Reg16::BC => Reg::B,
            Reg16::DE => Reg::D,
            Reg16::HL => Reg::H,
        }
    }

    /// The register that holds the low byte of a pair.
    pub open spec fn low_of(p: Reg16) -> Reg {
        match p {
            Reg16::BC => Reg::C,
            Reg16::DE => Reg::E,
            Reg16::HL => Reg::L,
        }
    }

    /// The value of a pair: its high register over its low register.
    pub open spec fn spec_read_pair(self, p: Reg16) -> u16 {
        join_bytes(self.spec_read_reg(Self::high_of(p)), self.spec_read_reg(Self::low_of(p)))
    }

    /// This register file with a pair replaced: the high byte of `value`
    /// goes to the high register, the low byte to the low register.
    pub open spec fn spec_write_pair(self, p: Reg16, value: u16) -> Registers {
        self.spec_write_reg(Self::high_of(p), hi_byte(value)).spec_write_reg(
            Self::low_of(p),
            lo_byte(value),
        )
    }

    /// The AF composite: A over the packed flags.
    pub open spec fn spec_read_af(self) -> u16 {
        join_bytes(self.a, self.f.packed())
    }

    /// This register file with AF replaced: A takes the high byte, the flags
    /// take the high nibble of the low byte.
    pub open spec fn spec_write_af(self, value: u16) -> Registers {
        Registers { a: hi_byte(value), f: RegisterFlags::unpacked(lo_byte(value) & 0xF0), ..self }
    }

    /// This register file with one flag replaced.
    pub open spec fn spec_set_flag(self, flag: Flag, state: bool) -> Registers {
        Registers { f: self.f.spec_set(flag, state), ..self }
    }

    /// The register file at power-on: every register and flag is zero.
    pub open spec fn zeroed() -> Registers {
        Registers {
            a: 0,
            b: 0,
            c: 0,
            d: 0,
            e: 0,
            h: 0,
            l: 0,
            sp: 0,
            pc: 0,
            f: RegisterFlags { zero: false, subtract: false, half_carry: false, carry: false },
        }
    }

    /// A register file with every register and flag zeroed.
    pub fn new() -> (regs: Registers)
        ensures
            regs == Registers::zeroed(),
    {
        Registers {
            a: 0,
            b: 0,
            c: 0,
            d: 0,
            e: 0,
            h: 0,
            l: 0,
            pc: 0,
            sp: 0,
            f: RegisterFlags::new(),
        }
    }

    /// Reads an 8-bit register.
    pub fn read_reg(&self, r: Reg) -> (value: u8)
        ensures
            value == self.spec_read_reg(r),
    {
        match r {
            Reg::A => self.a,
            Reg::B => self.b,
            Reg::C => self.c,
            Reg::D => self.d,
            Reg::E => self.e,
            Reg::H => self.h,
            Reg::L => self.l,
        }
    }

    /// Writes an 8-bit register and leaves everything else as it was.
    pub fn write_reg(&mut self, r: Reg, value: u8)
        ensures
            *final(self) == old(self).spec_write_reg(r, value),
    {
        match r {
            Reg::A => {
                self.a = value;
            },
            Reg::B => {
                self.b = value;
            },
            Reg::C => {
                self.c = value;
            },
            Reg::D => {
                self.d = value;
            },
            Reg::E => {
                self.e = value;
            },
            Reg::H => {
                self.h = value;
            },
            Reg::L => {
                self.l = value;
            },
        }
    }

    /// Reads a register pair.
    pub fn read_pair(&self, p: Reg16) -> (value: u16)
        ensures
            value == self.spec_read_pair(p),
    {
        match p {
            Reg16::BC => self.read_bc(),
            Reg16::DE => self.read_de(),
            Reg16::HL => self.read_hl(),
        }
    }

    /// Writes a register pair and leaves everything else as it was.
    pub fn write_pair(&mut self, p: Reg16, value: u16)
        ensures
            *final(self) == old(self).spec_write_pair(p, value),
    {
        match p {
            Reg16::BC => self.write_bc(value),
            Reg16::DE => self.write_de(value),
            Reg16::HL => self.write_hl(value),
        }
    }

    /// Writes the BC pair.
    pub fn write_bc(&mut self, value: u16)
        ensures
            *final(self) == old(self).spec_write_pair(Reg16::BC, value),
    {
        let (hi, lo) = Self::split_hi_lo(value);
        self.b = hi;
        self.c = lo;
    }

    /// Reads the BC pair.
    pub fn read_bc(&self) -> (value: u16)
        ensures
            value == self.spec_read_pair(Reg16::BC),
    {
        join_hi_lo(self.b, self.c)
    }

    /// Writes the HL pair.
    pub fn write_hl(&mut self, value: u16)
        ensures
            *final(self) == old(self).spec_write_pair(Reg16::HL, value),
    {
        let (hi, lo) = Self::split_hi_lo(value);
        self.h = hi;
        self.l = lo;
    }

    /// Reads the HL pair.
    pub fn read_hl(&self) -> (value: u16)
        ensures
            value == self.spec_read_pair(Reg16::HL),
    {
        join_hi_lo(self.h, self.l)
    }

    /// Writes the DE pair.
    pub fn write_de(&mut self, value: u16)
        ensures
            *final(self) == old(self).spec_write_pair(Reg16::DE, value),
    {
        let (hi, lo) = Self::split_hi_lo(value);
        self.d = hi;
        self.e = lo;
    }

    /// Reads the DE pair.
    pub fn read_de(&self) -> (value: u16)
        ensures
            value == self.spec_read_pair(Reg16::DE),
    {
        join_hi_lo(self.d, self.e)
    }

    /// Writes the AF composite. The low nibble of `value` is dropped: the
    /// flags have no bits there.
    pub fn write_af(&mut self, value: u16)
        ensures
            *final(self) == old(self).spec_write_af(value),
    {
        let (hi, lo) = Self::split_hi_lo(value);
        self.a = hi;
        self.f = RegisterFlags::from_byte(lo & 0xF0);
    }

    /// Reads the AF composite.
    pub fn read_af(&self) -> (value: u16)
        ensures
            value == self.spec_read_af(),
    {
        join_hi_lo(self.a, self.f.to_byte())
    }

    /// Reads one flag.
    pub fn get_flag(&self, flag: Flag) -> (state: bool)
        ensures
            state == self.f.spec_get(flag),
    {
        self.f.get(flag)
    }

    /// Writes one flag and leaves everything else as it was.
    pub fn set_flag(&mut self, flag: Flag, state: bool)
        ensures
            *final(self) == old(self).spec_set_flag(flag, state),
    {
        self.f.set(flag, state);
    }

    /// Splits a 16-bit value into its high and low byte.
    pub fn split_hi_lo(value: u16) -> (halves: (u8, u8))
        ensures
            halves.0 == hi_byte(value),
            halves.1 == lo_byte(value),
    {
        split_hi_lo(value)
    }
}

/// Writing a pair and reading it back gives the value written, for each of
/// BC, DE and HL and every 16-bit value.
pub proof fn lemma_pair_round_trip(regs: Registers, p: Reg16, value: u16)
    ensures
        regs.spec_write_pair(p, value).spec_read_pair(p) == value,
{
    lemma_join_split(value);
}

/// Writing AF and reading it back keeps the high byte and the high nibble of
/// the low byte; the low nibble reads as zero whatever was written.
pub proof fn lemma_af_round_trip(regs: Registers, value: u16)
    ensures
        regs.spec_write_af(value).spec_read_af() == (value & 0xFF00) | (value & 0x00F0),
        regs.spec_write_af(value).spec_read_af() & 0x000F == 0,
{
    let lo = lo_byte(value);
    let masked = lo & 0xF0;
    lemma_pack_unpack(masked);
    assert((masked & 0xF0) == masked) by (bit_vector)
        requires
            masked == lo & 0xF0,
    ;
    let hi = hi_byte(value);
    assert(((hi as u16) << 8) | (masked as u16) == (value & 0xFF00) | (value & 0x00F0))
        by (bit_vector)
        requires
            hi == (value >> 8) as u8,
            masked == ((value & 0xFF) as u8) & 0xF0,
    ;
    assert(((value & 0xFF00) | (value & 0x00F0)) & 0x000F == 0) by (bit_vector);
}

} // verus!
