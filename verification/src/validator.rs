//! Integrity checks on a 64-bit candidate word: checksum, parity and
//! message type.

use vstd::prelude::*;
use crate::bits::{get_parity, odd_parity, read_bit_field, spec_bit_field};

verus! {

/// Message type of a report with wind speed, wind direction and rain.
pub const MESSAGE_TYPE_WIND_RAIN: u8 = 1;

/// Message type of a report with wind speed, temperature and humidity.
pub const MESSAGE_TYPE_WIND_CLIMATE: u8 = 8;

/// Byte `index` of the word, byte 0 being the least significant.
pub open spec fn spec_byte(message: u64, index: u64) -> u8
    recommends
        index < 8,
{
    ((message >> ((8 * index) as u64)) & 0xff) as u8
}

/// The sum of bytes 1 to 7 of the word.
pub open spec fn payload_sum(message: u64) -> int {
    spec_byte(message, 1) + spec_byte(message, 2) + spec_byte(message, 3) + spec_byte(message, 4)
        + spec_byte(message, 5) + spec_byte(message, 6) + spec_byte(message, 7)
}

/// The checksum holds when byte 0 is the sum of bytes 1 to 7 modulo 256.
pub open spec fn spec_crc_valid(message: u64) -> bool {
    payload_sum(message) % 256 == spec_byte(message, 0)
}

/// The parity holds when each of bytes 1 to 4 has an even number of ones.
pub open spec fn spec_parity_valid(message: u64) -> bool {
    &&& !odd_parity(spec_byte(message, 1))
    &&& !odd_parity(spec_byte(message, 2))
    &&& !odd_parity(spec_byte(message, 3))
    &&& !odd_parity(spec_byte(message, 4))
}

/// The message type, bits 43 to 40 of the word.
pub open spec fn spec_message_type(message: u64) -> u8 {
    spec_bit_field(message, 43, 40)
}

/// A word is a good message when its type is one of the two known ones and
/// both its checksum and its parity hold.
pub open spec fn spec_message_integrity_good(message: u64) -> bool {
    &&& (spec_message_type(message) == MESSAGE_TYPE_WIND_RAIN || spec_message_type(message)
        == MESSAGE_TYPE_WIND_CLIMATE)
    &&& spec_crc_valid(message)
    &&& spec_parity_valid(message)
}

/// Checks the checksum: byte 0 against the sum of bytes 1 to 7.
pub fn is_crc_valid(message: u64) -> (valid: bool)
    ensures
        valid == spec_crc_valid(message),
{
    proof {
        assert((message >> 56) <= 0xff && (message >> 48) <= 0xffff && (message >> 40) <= 0xff_ffff
            && (message >> 32) <= 0xffff_ffff && (message >> 24) <= 0xff_ffff_ffff && (message
            >> 16) <= 0xffff_ffff_ffff && (message >> 8) <= 0xff_ffff_ffff_ffff) by (bit_vector);
    }
    let sum_of_all_bytes: u64 = (message >> 56) + (message >> 48) + (message >> 40) + (message
        >> 32) + (message >> 24) + (message >> 16) + (message >> 8);
    proof {
        lemma_shifted_sum(message, sum_of_all_bytes);
    }
    (sum_of_all_bytes & 0xFF) == message & 0xFF
}

/// The low eight bits of a word are its remainder modulo 256.
proof fn lemma_low_bits(word: u64)
    ensures
        word & 0xff == word % 256,
{
    assert(word & 0xff == word % 256) by (bit_vector);
}

/// The low byte of the sum of the shifted words is the sum of the bytes
/// modulo 256.
proof fn lemma_shifted_sum(message: u64, sum: u64)
    requires
        sum == (message >> 56) + (message >> 48) + (message >> 40) + (message >> 32) + (message
            >> 24) + (message >> 16) + (message >> 8),
    ensures
        (sum & 0xff) == payload_sum(message) % 256,
        (message & 0xff) == spec_byte(message, 0),
{
    lemma_low_bits(sum);
    lemma_low_bits(message);
    lemma_low_bits(message >> 8);
    lemma_low_bits(message >> 16);
    lemma_low_bits(message >> 24);
    lemma_low_bits(message >> 32);
    lemma_low_bits(message >> 40);
    lemma_low_bits(message >> 48);
    lemma_low_bits(message >> 56);
    assert(message >> 0 == message) by (bit_vector);
}

/// Checks for even parity on each of bytes 1 to 4.
pub fn is_parity_valid(message: u64) -> (valid: bool)
    ensures
        valid == spec_parity_valid(message),
{
    let byte4: u8 = low_byte(message >> 32);
    let byte3: u8 = low_byte(message >> 24);
    let byte2: u8 = low_byte(message >> 16);
    let byte1: u8 = low_byte(message >> 8);
    !get_parity(byte4) && !get_parity(byte3) && !get_parity(byte2) && !get_parity(byte1)
}

/// The least significant byte of a word.
fn low_byte(word: u64) -> (byte: u8)
    ensures
        byte == (word & 0xff) as u8,
        byte == (word & 0xff),
{
    let low: u64 = word & 0xff;
    proof {
        assert(word & 0xff < 256) by (bit_vector);
    }
    low as u8
}

/// Checks that the word has a known message type, a matching checksum and
/// even parity on bytes 1 to 4.
pub fn is_message_integrity_good(message: u64) -> (good: bool)
    ensures
        good == spec_message_integrity_good(message),
{
    let message_type: u8 = read_bit_field(message, 43, 40);
    (message_type == MESSAGE_TYPE_WIND_RAIN || message_type == MESSAGE_TYPE_WIND_CLIMATE)
        && is_crc_valid(message) && is_parity_valid(message)
}

/// In a word whose parity holds, flipping any single bit of bytes 1 to 4
/// breaks the parity.
pub proof fn lemma_bit_flip_breaks_parity(message: u64, bit: u8)
    requires
        8 <= bit < 40,
        spec_parity_valid(message),
    ensures
        !spec_parity_valid(message ^ (1u64 << bit)),
{
    let b: u64 = bit as u64;
    assert(!spec_parity_valid(message ^ (1u64 << b))) by (bit_vector)
        requires
            8 <= b < 40,
            spec_parity_valid(message),
    ;
}

/// Flipping any single bit of bytes 1 to 7 of a word changes the sum that
/// its checksum byte is held against, so a word whose checksum holds no
/// longer passes.
pub proof fn lemma_bit_flip_breaks_crc(message: u64, bit: u8)
    requires
        8 <= bit < 64,
        spec_crc_valid(message),
    ensures
        !spec_crc_valid(message ^ (1u64 << bit)),
{
    let b: u64 = bit as u64;
    assert(!spec_crc_valid(message ^ (1u64 << b))) by (bit_vector)
        requires
            8 <= b < 64,
            spec_crc_valid(message),
    ;
}

} // verus!
