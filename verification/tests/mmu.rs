use gb_core::mmu::{Mmu, MEMORY_SIZE};

#[test]
fn new_memory_is_zeroed() {
    let mmu = Mmu::new();

    assert_eq!(MEMORY_SIZE, 65536);
    assert_eq!(mmu.memory.len(), 65536);
    assert!(mmu.memory.iter().all(|b| *b == 0));
    assert_eq!(mmu.read_byte(0x0000), 0);
    assert_eq!(mmu.read_byte(0xFFFF), 0);
}

#[test]
fn byte_round_trip_at_every_address() {
    let mut mmu = Mmu::new();
    for addr in 0..=0xFFFFu16 {
        mmu.write_byte(addr, (addr as u8) ^ 0x5A);
    }
    for addr in 0..=0xFFFFu16 {
        assert_eq!(mmu.read_byte(addr), (addr as u8) ^ 0x5A);
    }
}

#[test]
fn write_byte_changes_one_address() {
    let mut mmu = Mmu::new();
    mmu.write_byte(0x1234, 0xAB);

    assert_eq!(mmu.read_byte(0x1234), 0xAB);
    assert_eq!(mmu.read_byte(0x1233), 0);
    assert_eq!(mmu.read_byte(0x1235), 0);
    assert_eq!(mmu.memory.iter().filter(|b| **b != 0).count(), 1);
}

#[test]
fn read_word_is_little_endian() {
    let mut mmu = Mmu::new();
    mmu.write_byte(0x0100, 0x34);
    mmu.write_byte(0x0101, 0x12);

    assert_eq!(mmu.read_word(0x0100), 0x1234);
}

#[test]
fn write_word_is_little_endian() {
    let mut mmu = Mmu::new();
    mmu.write_word(0xC000, 0xBEEF);

    assert_eq!(mmu.read_byte(0xC000), 0xEF);
    assert_eq!(mmu.read_byte(0xC001), 0xBE);
}

#[test]
fn word_round_trip() {
    let mut mmu = Mmu::new();
    for addr in [0x0000u16, 0x0001, 0x00FF, 0x7FFF, 0x8000, 0xFF00, 0xFFFE] {
        for v in [0x0000u16, 0x0001, 0x00FF, 0x0100, 0x1234, 0xFFFF] {
            mmu.write_word(addr, v);
            assert_eq!(mmu.read_word(addr), v);
        }
    }
}

#[test]
fn word_at_the_last_address_wraps_to_zero() {
    let mut mmu = Mmu::new();
    mmu.write_byte(0xFFFF, 0x34);
    mmu.write_byte(0x0000, 0x12);
    assert_eq!(mmu.read_word(0xFFFF), 0x1234);

    mmu.write_word(0xFFFF, 0xABCD);
    assert_eq!(mmu.read_byte(0xFFFF), 0xCD);
    assert_eq!(mmu.read_byte(0x0000), 0xAB);
    assert_eq!(mmu.read_word(0xFFFF), 0xABCD);
}
