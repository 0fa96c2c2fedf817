use weather_station::bits::{get_parity, read_bit_field};

const REFERENCE_WORD: u64 = 0xC8E678815924A5C9;

#[test]
fn bit_field_reads_inclusive_range() {
    assert_eq!(read_bit_field(REFERENCE_WORD, 63, 62), 3);
    assert_eq!(read_bit_field(REFERENCE_WORD, 61, 60), 0);
    assert_eq!(read_bit_field(REFERENCE_WORD, 59, 56), 8);
    assert_eq!(read_bit_field(REFERENCE_WORD, 55, 48), 0xE6);
    assert_eq!(read_bit_field(REFERENCE_WORD, 47, 44), 7);
    assert_eq!(read_bit_field(REFERENCE_WORD, 43, 40), 8);
    assert_eq!(read_bit_field(REFERENCE_WORD, 7, 0), 0xC9);
}

#[test]
fn bit_field_single_bit() {
    assert_eq!(read_bit_field(1u64 << 63, 63, 63), 1);
    assert_eq!(read_bit_field(1u64 << 63, 62, 62), 0);
    assert_eq!(read_bit_field(1, 0, 0), 1);
}

#[test]
fn bit_field_empty_range_is_zero() {
    assert_eq!(read_bit_field(u64::MAX, 3, 4), 0);
    assert_eq!(read_bit_field(u64::MAX, 0, 63), 0);
}

#[test]
fn bit_field_wider_than_a_byte_keeps_low_eight_bits() {
    assert_eq!(read_bit_field(0x1234, 15, 0), 0x34);
    assert_eq!(read_bit_field(u64::MAX, 63, 0), 0xFF);
}

#[test]
fn parity_is_true_for_odd_number_of_ones() {
    assert!(get_parity(7));
    assert!(get_parity(1));
    assert!(get_parity(0x80));
    assert!(!get_parity(0));
    assert!(!get_parity(3));
    assert!(!get_parity(0xFF));
}

#[test]
fn parity_matches_count_of_ones_for_every_byte() {
    for n in 0..=255u8 {
        assert_eq!(get_parity(n), n.count_ones() % 2 == 1, "byte {}", n);
    }
}
