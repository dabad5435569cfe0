use gameboy::bits::{assign_bit, pack_flags, test_bit, zero_flag_only, CARRY, HALF_CARRY, SUBTRACT, ZERO};

#[test]
fn test_bit_counts_from_the_most_significant_bit() {
    assert!(test_bit(0b1000_0000, 0));
    assert!(!test_bit(0b1000_0000, 1));
    assert!(test_bit(0b0000_0001, 7));
    assert!(!test_bit(0b0000_0001, 6));
    assert!(test_bit(0b0010_0000, 2));
}

#[test]
fn test_bit_reads_every_bit_of_every_byte() {
    for byte in 0..=255u8 {
        for pos in 0..8usize {
            let expected = (byte >> (7 - pos)) & 1 == 1;
            assert_eq!(test_bit(byte, pos), expected);
        }
    }
}

#[test]
fn assign_bit_changes_one_bit_only() {
    assert_eq!(assign_bit(0x00, 0, true), 0x80);
    assert_eq!(assign_bit(0x00, 7, true), 0x01);
    assert_eq!(assign_bit(0xFF, 3, false), 0xEF);
    assert_eq!(assign_bit(0xFF, 3, true), 0xFF);
    assert_eq!(assign_bit(0x5A, 4, false), 0x52);
}

#[test]
fn assign_bit_agrees_with_masks_on_every_byte() {
    for byte in 0..=255u8 {
        for pos in 0..8usize {
            let mask = 1u8 << (7 - pos);
            assert_eq!(assign_bit(byte, pos, true), byte | mask);
            assert_eq!(assign_bit(byte, pos, false), byte & !mask);
        }
    }
}

#[test]
fn flag_positions_are_the_top_four_bits() {
    assert_eq!(assign_bit(0, ZERO, true), 0x80);
    assert_eq!(assign_bit(0, SUBTRACT, true), 0x40);
    assert_eq!(assign_bit(0, HALF_CARRY, true), 0x20);
    assert_eq!(assign_bit(0, CARRY, true), 0x10);
}

#[test]
fn pack_flags_replaces_the_flags_and_keeps_the_low_nibble() {
    assert_eq!(pack_flags(0x0F, true, false, true, false), 0xAF);
    assert_eq!(pack_flags(0xF0, false, false, false, false), 0x00);
    assert_eq!(pack_flags(0x05, false, true, false, true), 0x55);
    assert_eq!(pack_flags(0x00, true, true, true, true), 0xF0);
}

#[test]
fn zero_flag_only_gives_one_bit_or_none() {
    assert_eq!(zero_flag_only(true), 0x80);
    assert_eq!(zero_flag_only(false), 0x00);
}
