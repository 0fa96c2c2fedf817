use weather_station::acurite5n1::{
    high_pulse, Acurite5n1, PinState, Pulse, ReceiverAction, COOL_DOWN_MS,
};
use weather_station::message::{
    Acurite5n1Message, MessageHeader, MessageType1, MessageType8,
};

const REFERENCE_WORD: u64 = 0xC8E678815924A5C9;
const WIND_RAIN_WORD: u64 = 0xC8E67181A600E42A;
const SYNC: u16 = 620;
const SHORT: u16 = 210;
const LONG: u16 = 420;

fn word_pulses(word: u64) -> Vec<u16> {
    let mut pulses = Vec::new();
    for i in 0..64 {
        pulses.push(if (word >> (63 - i)) & 1 == 1 { LONG } else { SHORT });
    }
    pulses
}

fn pair(high_ticks: u16) -> (Pulse, Pulse) {
    (
        Pulse { pin_state: PinState::High, ticks: high_ticks },
        Pulse { pin_state: PinState::Low, ticks: 200 },
    )
}

fn pairs(highs: &[u16]) -> Vec<(Pulse, Pulse)> {
    let mut result = Vec::new();
    for high in highs {
        result.push(pair(*high));
    }
    result
}

fn burst(words: &[u64]) -> Vec<u16> {
    let mut highs = Vec::new();
    for word in words {
        for _ in 0..4 {
            highs.push(SYNC);
        }
        for pulse in word_pulses(*word) {
            highs.push(pulse);
        }
    }
    highs
}

fn reference_message() -> Acurite5n1Message {
    Acurite5n1Message::Type8(MessageType8 {
        header: MessageHeader { channel_number: 3, report_number: 0, product_id: 1254, status: 7 },
        wind_speed: 13,
        temperature: 1188,
        humidity: 37,
    })
}

#[test]
fn cool_down_is_seventeen_seconds() {
    assert_eq!(COOL_DOWN_MS, 17000);
}

#[test]
fn high_pulse_is_taken_from_the_high_half() {
    let high_first = (
        Pulse { pin_state: PinState::High, ticks: 420 },
        Pulse { pin_state: PinState::Low, ticks: 200 },
    );
    let low_first = (
        Pulse { pin_state: PinState::Low, ticks: 200 },
        Pulse { pin_state: PinState::High, ticks: 610 },
    );
    assert_eq!(high_pulse(&high_first), 420);
    assert_eq!(high_pulse(&low_first), 610);
}

#[test]
fn good_message_is_found_in_first_group() {
    let mut acurite = Acurite5n1::new();
    let pulses = word_pulses(REFERENCE_WORD);
    assert!(acurite.found_good_message(&pulses));
    assert_eq!(acurite.decoder.decoded_message, REFERENCE_WORD);
    assert_eq!(acurite.process_message(), reference_message());
}

#[test]
fn first_good_group_wins() {
    let mut acurite = Acurite5n1::new();
    let mut pulses = word_pulses(REFERENCE_WORD ^ (1 << 20));
    pulses.extend(word_pulses(WIND_RAIN_WORD));
    pulses.extend(word_pulses(REFERENCE_WORD));
    assert!(acurite.found_good_message(&pulses));
    assert_eq!(acurite.decoder.decoded_message, WIND_RAIN_WORD);
}

#[test]
fn no_good_group_is_reported() {
    let mut acurite = Acurite5n1::new();
    let mut pulses = word_pulses(REFERENCE_WORD ^ (1 << 20));
    pulses.extend(word_pulses(REFERENCE_WORD ^ 1));
    assert!(!acurite.found_good_message(&pulses));
}

#[test]
fn partial_group_is_not_a_message() {
    let mut acurite = Acurite5n1::new();
    let mut pulses = word_pulses(REFERENCE_WORD);
    pulses.pop();
    assert!(!acurite.found_good_message(&pulses));
    assert!(!acurite.found_good_message(&Vec::new()));
}

#[test]
fn groups_do_not_overlap() {
    let mut acurite = Acurite5n1::new();
    let mut pulses = vec![SHORT];
    pulses.extend(word_pulses(REFERENCE_WORD));
    pulses.extend(vec![SHORT; 63]);
    assert!(!acurite.found_good_message(&pulses));
}

#[test]
fn earlier_word_does_not_leak_into_the_next_group() {
    let mut acurite = Acurite5n1::new();
    acurite.decoder.decoded_message = u64::MAX;
    let pulses = word_pulses(REFERENCE_WORD);
    assert!(acurite.found_good_message(&pulses));
    assert_eq!(acurite.decoder.decoded_message, REFERENCE_WORD);
}

#[test]
fn empty_batch_changes_nothing() {
    let mut acurite = Acurite5n1::new();
    let mut message_pulses: Vec<u16> = Vec::new();
    let batch = pairs(&burst(&[REFERENCE_WORD]));
    let action = acurite.parse_pulse_stream(&batch, 0, &mut message_pulses);
    assert_eq!(action, ReceiverAction::KeepListening);
    assert_eq!(acurite, Acurite5n1::new());
    assert!(message_pulses.is_empty());
}

#[test]
fn burst_yields_the_message_and_a_rest() {
    let mut acurite = Acurite5n1::new();
    let mut message_pulses: Vec<u16> = Vec::new();
    let batch = pairs(&burst(&[REFERENCE_WORD, REFERENCE_WORD, REFERENCE_WORD]));
    let action = acurite.parse_pulse_stream(&batch, batch.len(), &mut message_pulses);
    assert_eq!(action, ReceiverAction::Rest(Some(reference_message())));
    assert!(message_pulses.is_empty());
    assert_eq!(acurite, Acurite5n1::new());
}

#[test]
fn low_first_pairs_are_read_from_the_second_half() {
    let mut acurite = Acurite5n1::new();
    let mut message_pulses: Vec<u16> = Vec::new();
    let mut batch = Vec::new();
    for high in burst(&[WIND_RAIN_WORD]) {
        batch.push((
            Pulse { pin_state: PinState::Low, ticks: 620 },
            Pulse { pin_state: PinState::High, ticks: high },
        ));
    }
    let action = acurite.parse_pulse_stream(&batch, batch.len(), &mut message_pulses);
    assert_eq!(
        action,
        ReceiverAction::Rest(Some(Acurite5n1Message::Type1(MessageType1 {
            header: MessageHeader {
                channel_number: 3,
                report_number: 0,
                product_id: 1254,
                status: 7,
            },
            wind_speed: 10,
            wind_direction: 6,
            rain_bucket_tips: 100,
        })))
    );
}

#[test]
fn interrupted_sync_run_delays_synchronization() {
    let mut highs = vec![SYNC, SYNC, SYNC, SHORT];
    highs.extend(burst(&[REFERENCE_WORD]));
    let batch = pairs(&highs);
    let mut acurite = Acurite5n1::new();
    let mut message_pulses: Vec<u16> = Vec::new();
    let action = acurite.parse_pulse_stream(&batch, batch.len(), &mut message_pulses);
    assert_eq!(action, ReceiverAction::Rest(Some(reference_message())));
}

#[test]
fn three_sync_pulses_are_not_enough() {
    let mut highs = vec![SYNC, SYNC, SYNC];
    highs.extend(word_pulses(REFERENCE_WORD));
    let batch = pairs(&highs);
    let mut acurite = Acurite5n1::new();
    let mut message_pulses: Vec<u16> = Vec::new();
    let action = acurite.parse_pulse_stream(&batch, batch.len(), &mut message_pulses);
    assert_eq!(action, ReceiverAction::KeepListening);
    assert!(message_pulses.is_empty());
}

#[test]
fn corrupted_first_copy_falls_back_to_the_second() {
    let mut highs = vec![SYNC, SYNC, SYNC, SYNC];
    highs.extend(&word_pulses(REFERENCE_WORD)[..30]);
    highs.push(550);
    highs.extend(burst(&[REFERENCE_WORD]));
    let batch = pairs(&highs);
    let mut acurite = Acurite5n1::new();
    let mut message_pulses: Vec<u16> = Vec::new();
    let action = acurite.parse_pulse_stream(&batch, batch.len(), &mut message_pulses);
    assert_eq!(action, ReceiverAction::Rest(Some(reference_message())));
}

#[test]
fn completed_but_invalid_message_rests_without_a_message() {
    let batch = pairs(&burst(&[REFERENCE_WORD ^ (1 << 9)]));
    let mut acurite = Acurite5n1::new();
    let mut message_pulses: Vec<u16> = Vec::new();
    let action = acurite.parse_pulse_stream(&batch, batch.len(), &mut message_pulses);
    assert_eq!(action, ReceiverAction::Rest(None));
    assert!(message_pulses.is_empty());
}

#[test]
fn trailing_partial_message_is_dropped() {
    let mut highs = vec![SYNC, SYNC, SYNC, SYNC];
    highs.extend(&word_pulses(REFERENCE_WORD)[..40]);
    let batch = pairs(&highs);
    let mut acurite = Acurite5n1::new();
    let mut message_pulses: Vec<u16> = Vec::new();
    let action = acurite.parse_pulse_stream(&batch, batch.len(), &mut message_pulses);
    assert_eq!(action, ReceiverAction::KeepListening);
    assert!(message_pulses.is_empty());
    assert_eq!(acurite, Acurite5n1::new());
}

#[test]
fn only_the_first_length_pairs_are_read() {
    let batch = pairs(&burst(&[REFERENCE_WORD]));
    let mut acurite = Acurite5n1::new();
    let mut message_pulses: Vec<u16> = Vec::new();
    let action = acurite.parse_pulse_stream(&batch, batch.len() - 1, &mut message_pulses);
    assert_eq!(action, ReceiverAction::KeepListening);
    let action = acurite.parse_pulse_stream(&batch, batch.len(), &mut message_pulses);
    assert_eq!(action, ReceiverAction::Rest(Some(reference_message())));
}

#[test]
fn clear_decoder_searches_again() {
    let mut acurite = Acurite5n1::new();
    acurite.decoder.sync_found = true;
    acurite.decoder.bit_count = 12;
    acurite.decoder.sync_count = 4;
    acurite.decoder.decoded_message = 99;
    acurite.clear_decoder();
    assert_eq!(acurite, Acurite5n1::new());
}
