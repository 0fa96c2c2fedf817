//! The two protocol messages of the sensor and their bit layout.

use vstd::prelude::*;
use crate::bits::{lemma_bit_field_bits, read_bit_field, spec_bit_field};
use crate::validator::{spec_message_type, MESSAGE_TYPE_WIND_RAIN};

verus! {

/// The part that both message types share.
#[derive(Clone, Copy, Debug, PartialEq, Eq, Structural)]
pub struct MessageHeader {
    /// Channel switch of the sensor, 0 to 3.
    pub channel_number: u8,
    /// Which of the repeats within one burst this is, 0 to 3.
    pub report_number: u8,
    /// Identifier that the sensor picked at power-up.
    pub product_id: u16,
    /// Status nibble; 7 means that the battery is good.
    pub status: u8,
}

/// Wind speed, wind direction and the rain gauge's tip counter.
#[derive(Clone, Copy, Debug, PartialEq, Eq, Structural)]
pub struct MessageType1 {
    pub header: MessageHeader,
    pub wind_speed: u8,
    pub wind_direction: u8,
    pub rain_bucket_tips: u16,
}

/// Wind speed, temperature and relative humidity.
#[derive(Clone, Copy, Debug, PartialEq, Eq, Structural)]
pub struct MessageType8 {
    pub header: MessageHeader,
    pub wind_speed: u8,
    pub temperature: u16,
    pub humidity: u8,
}

/// A decoded message of either type.
#[derive(Clone, Copy, Debug, PartialEq, Eq, Structural)]
pub enum Acurite5n1Message {
    Type1(MessageType1),
    Type8(MessageType8),
}

/// Two fields joined into one number: `msb` above the low seven bits, with
/// `lsb` laid over them.
pub open spec fn join_fields(msb: u8, lsb: u8) -> u16 {
    ((msb as u16) << 7) | (lsb as u16)
}

/// The header as the word's bits 63 to 44 give it.
pub open spec fn spec_header(word: u64) -> MessageHeader {
    MessageHeader {
        channel_number: spec_bit_field(word, 63, 62),
        report_number: spec_bit_field(word, 61, 60),
        product_id: join_fields(spec_bit_field(word, 59, 56), spec_bit_field(word, 55, 48)),
        status: spec_bit_field(word, 47, 44),
    }
}

/// The wind speed: bits 36 to 32 above bits 30 to 28.
pub open spec fn spec_wind_speed(word: u64) -> u8 {
    (spec_bit_field(word, 36, 32) << 3) | spec_bit_field(word, 30, 28)
}

/// The message that a word holds: a wind and rain report where its type is
/// 1, a wind and climate report otherwise.
pub open spec fn spec_decode(word: u64) -> Acurite5n1Message {
    if spec_message_type(word) == MESSAGE_TYPE_WIND_RAIN {
        Acurite5n1Message::Type1(
            MessageType1 {
                header: spec_header(word),
                wind_speed: spec_wind_speed(word),
                wind_direction: spec_bit_field(word, 27, 24),
                rain_bucket_tips: join_fields(
                    spec_bit_field(word, 21, 16),
                    spec_bit_field(word, 14, 8),
                ),
            },
        )
    } else {
        Acurite5n1Message::Type8(
            MessageType8 {
                header: spec_header(word),
                wind_speed: spec_wind_speed(word),
                temperature: join_fields(spec_bit_field(word, 27, 24), spec_bit_field(word, 22, 16)),
                humidity: spec_bit_field(word, 14, 8),
            },
        )
    }
}

impl MessageHeader {
    /// The ranges that the bit layout gives the header's fields.
    pub open spec fn wf(&self) -> bool {
        &&& self.channel_number <= 3
        &&& self.report_number <= 3
        &&& self.product_id < 2048
        &&& self.status <= 15
    }
}

impl Acurite5n1Message {
    /// The ranges that the bit layout gives the fields of a message.
    pub open spec fn wf(&self) -> bool {
        match *self {
            Acurite5n1Message::Type1(m) => {
                &&& m.header.wf()
                &&& m.wind_direction <= 15
                &&& m.rain_bucket_tips < 8192
            },
            Acurite5n1Message::Type8(m) => {
                &&& m.header.wf()
                &&& m.temperature < 2048
                &&& m.humidity < 128
            },
        }
    }

    /// The header of the message, whatever its type.
    pub fn header(&self) -> (header: MessageHeader)
        ensures
            header == match *self {
                Acurite5n1Message::Type1(m) => m.header,
                Acurite5n1Message::Type8(m) => m.header,
            },
    {
        match self {
            Acurite5n1Message::Type1(m) => m.header,
            Acurite5n1Message::Type8(m) => m.header,
        }
    }
}

/// Joins two fields as the layout does for numbers wider than a byte.
fn join(msb: u8, lsb: u8) -> (joined: u16)
    ensures
        joined == join_fields(msb, lsb),
{
    let high: u16 = msb as u16;
    let low: u16 = lsb as u16;
    (high << 7) | low
}

/// A field of width `width` is below two to the `width`.
proof fn lemma_field_bound(word: u64, msb_posn: u8, lsb_posn: u8)
    requires
        lsb_posn <= msb_posn < 64,
        msb_posn - lsb_posn < 8,
    ensures
        (spec_bit_field(word, msb_posn, lsb_posn) as u64) < (1u64 << ((msb_posn - lsb_posn
            + 1) as u64)),
{
    lemma_bit_field_bits(word, msb_posn, lsb_posn, 0);
    let f: u64 = spec_bit_field(word, msb_posn, lsb_posn) as u64;
    let w: u64 = (msb_posn - lsb_posn + 1) as u64;
    assert(f < (1u64 << w)) by (bit_vector)
        requires
            f >> w == 0,
            w <= 8,
    ;
}

/// Every decoded message has its fields within the ranges of the layout.
pub proof fn lemma_decode_wf(word: u64)
    ensures
        spec_decode(word).wf(),
{
    lemma_field_bound(word, 63, 62);
    lemma_field_bound(word, 61, 60);
    lemma_field_bound(word, 59, 56);
    lemma_field_bound(word, 47, 44);
    lemma_field_bound(word, 27, 24);
    lemma_field_bound(word, 21, 16);
    lemma_field_bound(word, 14, 8);
    lemma_field_bound(word, 22, 16);
    assert((1u64 << 2u64) == 4 && (1u64 << 4u64) == 16 && (1u64 << 6u64) == 64 && (1u64 << 7u64)
        == 128) by (bit_vector);
    let pid_msb: u8 = spec_bit_field(word, 59, 56);
    let pid_lsb: u8 = spec_bit_field(word, 55, 48);
    assert((((pid_msb as u16) << 7) | (pid_lsb as u16)) < 2048) by (bit_vector)
        requires
            pid_msb < 16,
    ;
    let hi6: u8 = spec_bit_field(word, 21, 16);
    let lo7: u8 = spec_bit_field(word, 14, 8);
    assert((((hi6 as u16) << 7) | (lo7 as u16)) < 8192) by (bit_vector)
        requires
            hi6 < 64,
            lo7 < 128,
    ;
    let hi4: u8 = spec_bit_field(word, 27, 24);
    let lo7t: u8 = spec_bit_field(word, 22, 16);
    assert((((hi4 as u16) << 7) | (lo7t as u16)) < 2048) by (bit_vector)
        requires
            hi4 < 16,
            lo7t < 128,
    ;
}

/// Decodes the header of a word.
pub fn decode_header(word: u64) -> (header: MessageHeader)
    ensures
        header == spec_header(word),
{
    let channel_number: u8 = read_bit_field(word, 63, 62);
    let pid_msb: u8 = read_bit_field(word, 59, 56);
    let pid_lsb: u8 = read_bit_field(word, 55, 48);
    let product_id: u16 = join(pid_msb, pid_lsb);
    let report_number: u8 = read_bit_field(word, 61, 60);
    let status: u8 = read_bit_field(word, 47, 44);
    MessageHeader { channel_number, report_number, product_id, status }
}

/// Decodes a word into the message it holds. The word's type decides the
/// layout of the payload: type 1 is a wind and rain report, and any other
/// type is read as a wind and climate report.
pub fn decode_message(word: u64) -> (message: Acurite5n1Message)
    ensures
        message == spec_decode(word),
        message.wf(),
        message is Type1 <==> spec_message_type(word) == MESSAGE_TYPE_WIND_RAIN,
{
    proof {
        lemma_decode_wf(word);
    }
    let header: MessageHeader = decode_header(word);
    let message_type: u8 = read_bit_field(word, 43, 40);
    let wind_speed_msb: u8 = read_bit_field(word, 36, 32);
    let wind_speed_lsb: u8 = read_bit_field(word, 30, 28);
    let wind_speed: u8 = (wind_speed_msb << 3) | wind_speed_lsb;
    if message_type == MESSAGE_TYPE_WIND_RAIN {
        let wind_direction: u8 = read_bit_field(word, 27, 24);
        let rb_tips_msb: u8 = read_bit_field(word, 21, 16);
        let rb_tips_lsb: u8 = read_bit_field(word, 14, 8);
        let rain_bucket_tips: u16 = join(rb_tips_msb, rb_tips_lsb);
        Acurite5n1Message::Type1(
            MessageType1 { header, wind_speed, wind_direction, rain_bucket_tips },
        )
    } else {
        let temp_msb: u8 = read_bit_field(word, 27, 24);
        let temp_lsb: u8 = read_bit_field(word, 22, 16);
        let temperature: u16 = join(temp_msb, temp_lsb);
        let humidity: u8 = read_bit_field(word, 14, 8);
        Acurite5n1Message::Type8(MessageType8 { header, wind_speed, temperature, humidity })
    }
}

} // verus!
