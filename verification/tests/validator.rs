use weather_station::validator::{is_crc_valid, is_message_integrity_good, is_parity_valid};

const REFERENCE_WORD: u64 = 0xC8E678815924A5C9;
const WIND_RAIN_WORD: u64 = 0xC8E67181A600E42A;
const UNKNOWN_TYPE_WORD: u64 = 0xC8E67581A600E42E;

#[test]
fn reference_word_passes_checksum_and_parity() {
    assert!(is_crc_valid(REFERENCE_WORD));
    assert!(is_parity_valid(REFERENCE_WORD));
    assert!(is_message_integrity_good(REFERENCE_WORD));
}

#[test]
fn reference_word_single_bit_flip_breaks_parity() {
    for bit in 8..40 {
        let flipped = REFERENCE_WORD ^ (1u64 << bit);
        assert!(!is_parity_valid(flipped), "bit {}", bit);
        assert!(!is_message_integrity_good(flipped), "bit {}", bit);
    }
}

#[test]
fn single_bit_flip_in_payload_breaks_checksum() {
    for bit in 8..64 {
        assert!(!is_crc_valid(REFERENCE_WORD ^ (1u64 << bit)), "bit {}", bit);
    }
}

#[test]
fn changed_checksum_byte_is_rejected() {
    assert!(!is_crc_valid(REFERENCE_WORD ^ 1));
    assert!(is_parity_valid(REFERENCE_WORD ^ 1));
    assert!(!is_message_integrity_good(REFERENCE_WORD ^ 1));
}

#[test]
fn wind_rain_word_is_good() {
    assert!(is_message_integrity_good(WIND_RAIN_WORD));
}

#[test]
fn unknown_message_type_is_rejected() {
    assert!(is_crc_valid(UNKNOWN_TYPE_WORD));
    assert!(is_parity_valid(UNKNOWN_TYPE_WORD));
    assert!(!is_message_integrity_good(UNKNOWN_TYPE_WORD));
}

#[test]
fn checksum_is_sum_of_bytes_one_to_seven() {
    assert!(is_crc_valid(0));
    assert!(is_crc_valid(0x0100_0000_0000_0001));
    assert!(is_crc_valid(0xFF01_0000_0000_0000));
    assert!(!is_crc_valid(0xFF01_0000_0000_0001));
    assert!(is_crc_valid(0xFFFF_FFFF_FFFF_FFF9));
}

#[test]
fn parity_looks_at_bytes_one_to_four_only() {
    assert!(is_parity_valid(0x0101_0100_0000_0001));
    assert!(!is_parity_valid(0x0000_0001_0000_0000));
    assert!(!is_parity_valid(0x0000_0000_0000_0100));
    assert!(is_parity_valid(0x0000_0003_0303_0300));
}
