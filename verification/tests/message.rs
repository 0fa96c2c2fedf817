use weather_station::message::{
    decode_header, decode_message, Acurite5n1Message, MessageHeader, MessageType1, MessageType8,
};

const REFERENCE_WORD: u64 = 0xC8E678815924A5C9;
const WIND_RAIN_WORD: u64 = 0xC8E67181A600E42A;
const WIND_RAIN_WORD_200_TIPS: u64 = 0xC8E67181A681480F;

fn reference_header() -> MessageHeader {
    MessageHeader { channel_number: 3, report_number: 0, product_id: 1254, status: 7 }
}

#[test]
fn header_of_reference_word() {
    assert_eq!(decode_header(REFERENCE_WORD), reference_header());
}

#[test]
fn reference_word_is_wind_and_climate() {
    assert_eq!(
        decode_message(REFERENCE_WORD),
        Acurite5n1Message::Type8(MessageType8 {
            header: reference_header(),
            wind_speed: 13,
            temperature: 1188,
            humidity: 37,
        })
    );
}

#[test]
fn wind_and_rain_word() {
    assert_eq!(
        decode_message(WIND_RAIN_WORD),
        Acurite5n1Message::Type1(MessageType1 {
            header: reference_header(),
            wind_speed: 10,
            wind_direction: 6,
            rain_bucket_tips: 100,
        })
    );
    assert_eq!(
        decode_message(WIND_RAIN_WORD_200_TIPS),
        Acurite5n1Message::Type1(MessageType1 {
            header: reference_header(),
            wind_speed: 10,
            wind_direction: 6,
            rain_bucket_tips: 200,
        })
    );
}

#[test]
fn product_id_overlays_low_byte_on_high_nibble() {
    let word: u64 = (0x0F << 56) | (0xFF << 48);
    assert_eq!(decode_header(word).product_id, (15 << 7) | 255);
    let word: u64 = 0x01 << 56;
    assert_eq!(decode_header(word).product_id, 128);
}

#[test]
fn all_ones_word_has_largest_fields() {
    match decode_message(u64::MAX) {
        Acurite5n1Message::Type8(m) => {
            assert_eq!(m.header.channel_number, 3);
            assert_eq!(m.header.report_number, 3);
            assert_eq!(m.header.status, 15);
            assert_eq!(m.wind_speed, 255);
            assert_eq!(m.temperature, 2047);
            assert_eq!(m.humidity, 127);
        }
        Acurite5n1Message::Type1(_) => panic!("type 15 is read as wind and climate"),
    }
}

#[test]
fn header_accessor_returns_the_header() {
    assert_eq!(decode_message(REFERENCE_WORD).header(), reference_header());
    assert_eq!(decode_message(WIND_RAIN_WORD).header(), reference_header());
}
