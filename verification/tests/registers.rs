use gb_core::registers::{Flag, Reg, Reg16, RegisterFlags, Registers};

#[test]
fn registers_test_split_hi_lo() {
    let value: u16 = 0x1234;

    let (hi, lo) = Registers::split_hi_lo(value);

    assert_eq!(hi, 0x12);
    assert_eq!(lo, 0x34);
}

#[test]
fn test_write_bc() {
    let mut reg = Registers::new();

    reg.write_bc(0x1234);

    assert_eq!(reg.b, 0x12);
    assert_eq!(reg.c, 0x34);
}

#[test]
fn test_read_bc() {
    let mut reg = Registers::new();

    reg.b = 0x12;
    reg.c = 0x34;

    let bc = reg.read_bc();

    assert_eq!(bc, 0x1234)
}

#[test]
fn test_write_hl() {
    let mut reg = Registers::new();

    reg.write_hl(0x1234);

    assert_eq!(reg.h, 0x12);
    assert_eq!(reg.l, 0x34);
}

#[test]
fn test_read_hl() {
    let mut reg = Registers::new();

    reg.h = 0x12;
    reg.l = 0x34;

    let hl = reg.read_hl();

    assert_eq!(hl, 0x1234)
}

#[test]
fn test_write_de() {
    let mut reg = Registers::new();

    reg.write_de(0x1234);

    assert_eq!(reg.d, 0x12);
    assert_eq!(reg.e, 0x34);
}

#[test]
fn test_read_de() {
    let mut reg = Registers::new();

    reg.d = 0x12;
    reg.e = 0x34;

    let de = reg.read_de();

    assert_eq!(de, 0x1234)
}

#[test]
fn test_write_af() {
    // The low nibble of the flags byte has a bit set, to make sure that only
    // the high nibble is kept.
    let value: u16 = 0b00000001_00010010;
    let mut reg = Registers::new();

    reg.write_af(value);

    assert_eq!(reg.a, 0b00000001);
    assert_eq!(reg.f.to_byte(), RegisterFlags::C);
}

#[test]
fn test_read_af() {
    let mut reg = Registers::new();

    reg.a = 1;
    reg.f = RegisterFlags::from_byte(RegisterFlags::Z);

    let af = reg.read_af();

    assert_eq!(af, 0b00000001_10000000);
}

#[test]
fn new_registers_are_zeroed() {
    let reg = Registers::new();

    for r in [Reg::A, Reg::B, Reg::C, Reg::D, Reg::E, Reg::H, Reg::L] {
        assert_eq!(reg.read_reg(r), 0);
    }
    assert_eq!(reg.sp, 0);
    assert_eq!(reg.pc, 0);
    assert_eq!(reg.f.to_byte(), 0);
    assert_eq!(reg.read_af(), 0);
}

#[test]
fn write_reg_changes_one_register() {
    let all = [Reg::A, Reg::B, Reg::C, Reg::D, Reg::E, Reg::H, Reg::L];
    for (i, r) in all.iter().enumerate() {
        let mut reg = Registers::new();
        reg.write_reg(*r, 0xA0 + i as u8);
        for other in all {
            let expected = if other == *r { 0xA0 + i as u8 } else { 0 };
            assert_eq!(reg.read_reg(other), expected);
        }
    }
}

#[test]
fn pair_round_trip_for_every_pair() {
    for p in [Reg16::BC, Reg16::DE, Reg16::HL] {
        for v in [0x0000u16, 0x0001, 0x00FF, 0x0100, 0x1234, 0x8000, 0xFF00, 0xFFFF] {
            let mut reg = Registers::new();
            reg.write_pair(p, v);
            assert_eq!(reg.read_pair(p), v);
        }
    }
}

#[test]
fn pair_round_trip_exhaustive_hl() {
    let mut reg = Registers::new();
    for v in 0..=0xFFFFu16 {
        reg.write_pair(Reg16::HL, v);
        assert_eq!(reg.read_pair(Reg16::HL), v);
        assert_eq!(reg.h, (v >> 8) as u8);
        assert_eq!(reg.l, (v & 0xFF) as u8);
    }
}

#[test]
fn write_pair_leaves_other_pairs_alone() {
    let mut reg = Registers::new();
    reg.write_pair(Reg16::BC, 0x1122);
    reg.write_pair(Reg16::DE, 0x3344);
    reg.write_pair(Reg16::HL, 0x5566);
    reg.sp = 0x7788;
    reg.pc = 0x99AA;

    assert_eq!(reg.read_bc(), 0x1122);
    assert_eq!(reg.read_de(), 0x3344);
    assert_eq!(reg.read_hl(), 0x5566);
    assert_eq!(reg.sp, 0x7788);
    assert_eq!(reg.pc, 0x99AA);
    assert_eq!(reg.a, 0);
}

#[test]
fn af_round_trip_masks_low_nibble() {
    for v in 0..=0xFFFFu16 {
        let mut reg = Registers::new();
        reg.write_af(v);
        assert_eq!(reg.read_af(), (v & 0xFF00) | (v & 0x00F0));
    }
}

#[test]
fn flags_pack_into_high_nibble() {
    let mut flags = RegisterFlags::new();
    assert_eq!(flags.to_byte(), 0x00);
    flags.set(Flag::Z, true);
    assert_eq!(flags.to_byte(), 0x80);
    flags.set(Flag::N, true);
    assert_eq!(flags.to_byte(), 0xC0);
    flags.set(Flag::H, true);
    assert_eq!(flags.to_byte(), 0xE0);
    flags.set(Flag::C, true);
    assert_eq!(flags.to_byte(), 0xF0);
    flags.set(Flag::Z, false);
    assert_eq!(flags.to_byte(), 0x70);
}

#[test]
fn flag_masks_have_their_values() {
    assert_eq!(RegisterFlags::Z, 0b1000_0000);
    assert_eq!(RegisterFlags::N, 0b0100_0000);
    assert_eq!(RegisterFlags::H, 0b0010_0000);
    assert_eq!(RegisterFlags::C, 0b0001_0000);
}

#[test]
fn flags_byte_round_trip() {
    for b in 0..=0xFFu8 {
        let flags = RegisterFlags::from_byte(b);
        assert_eq!(flags.to_byte(), b & 0xF0);
        assert_eq!(RegisterFlags::from_byte(flags.to_byte()), flags);
        assert_eq!(flags.get(Flag::Z), b & 0x80 != 0);
        assert_eq!(flags.get(Flag::N), b & 0x40 != 0);
        assert_eq!(flags.get(Flag::H), b & 0x20 != 0);
        assert_eq!(flags.get(Flag::C), b & 0x10 != 0);
    }
}

#[test]
fn set_flag_changes_one_flag() {
    let mut reg = Registers::new();
    reg.a = 0x42;
    reg.set_flag(Flag::H, true);

    assert!(reg.get_flag(Flag::H));
    assert!(!reg.get_flag(Flag::Z));
    assert!(!reg.get_flag(Flag::N));
    assert!(!reg.get_flag(Flag::C));
    assert_eq!(reg.a, 0x42);
    assert_eq!(reg.read_af(), 0x4220);

    reg.set_flag(Flag::H, false);
    assert!(!reg.get_flag(Flag::H));
    assert_eq!(reg.read_af(), 0x4200);
}
