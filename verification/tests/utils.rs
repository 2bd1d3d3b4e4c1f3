use gb_core::utils::{has_half_carry, join_hi_lo, split_hi_lo};

#[test]
fn utils_test_split_hi_lo() {
    let value: u16 = 0x1234;

    let (hi, lo) = split_hi_lo(value);

    assert_eq!(hi, 0x12);
    assert_eq!(lo, 0x34);
}

#[test]
fn split_hi_lo_at_the_ends() {
    assert_eq!(split_hi_lo(0x0000), (0x00, 0x00));
    assert_eq!(split_hi_lo(0x00FF), (0x00, 0xFF));
    assert_eq!(split_hi_lo(0xFF00), (0xFF, 0x00));
    assert_eq!(split_hi_lo(0xFFFF), (0xFF, 0xFF));
}

#[test]
fn join_undoes_split() {
    for v in 0..=0xFFFFu16 {
        let (hi, lo) = split_hi_lo(v);
        assert_eq!(join_hi_lo(hi, lo), v);
    }
    assert_eq!(join_hi_lo(0x12, 0x34), 0x1234);
}

#[test]
fn half_carry_is_a_carry_out_of_bit_3() {
    assert!(has_half_carry(0x0F, 0x01));
    assert!(has_half_carry(0xFF, 0x01));
    assert!(has_half_carry(0x08, 0x08));
    assert!(!has_half_carry(0x00, 0x00));
    assert!(!has_half_carry(0x0E, 0x01));
    assert!(!has_half_carry(0xF0, 0xF0));
    assert!(!has_half_carry(0x10, 0x0F));
}

#[test]
fn half_carry_matches_the_nibble_sum() {
    for a in 0..=0xFFu8 {
        for b in 0..=0xFFu8 {
            assert_eq!(has_half_carry(a, b), (a & 0x0F) as u16 + (b & 0x0F) as u16 > 0x0F);
        }
    }
}
