use weather_station::decoder::Decoder;

const SYNC: u16 = 620;
const SHORT: u16 = 210;
const LONG: u16 = 420;

fn feed(decoder: &mut Decoder, collected: &mut Vec<u16>, pulses: &[u16]) {
    for pulse in pulses {
        decoder.push_pulse(*pulse, collected);
    }
}

fn synchronized() -> Decoder {
    let mut decoder = Decoder::new();
    let mut collected: Vec<u16> = Vec::new();
    feed(&mut decoder, &mut collected, &[SYNC, SYNC, SYNC, SYNC]);
    assert!(decoder.sync_found);
    decoder
}

#[test]
fn new_decoder_searches() {
    let decoder = Decoder::new();
    assert_eq!(decoder.decoded_message, 0);
    assert_eq!(decoder.sync_count, 0);
    assert_eq!(decoder.bit_count, 0);
    assert!(!decoder.sync_found);
    assert!(!decoder.found_message);
    assert_eq!(Decoder::default(), decoder);
}

#[test]
fn four_sync_pulses_synchronize() {
    let mut decoder = Decoder::new();
    let mut collected: Vec<u16> = Vec::new();
    feed(&mut decoder, &mut collected, &[SYNC, SYNC, SYNC]);
    assert!(!decoder.sync_found);
    assert_eq!(decoder.sync_count, 3);
    decoder.push_pulse(SYNC, &mut collected);
    assert!(decoder.sync_found);
    assert_eq!(decoder.sync_count, 4);
    assert!(collected.is_empty());
}

#[test]
fn disqualifying_pulse_restarts_sync_run() {
    let mut decoder = Decoder::new();
    let mut collected: Vec<u16> = Vec::new();
    feed(&mut decoder, &mut collected, &[SYNC, SYNC, SYNC, SHORT]);
    assert!(!decoder.sync_found);
    assert_eq!(decoder.sync_count, 0);
    feed(&mut decoder, &mut collected, &[SYNC, SYNC, SYNC]);
    assert!(!decoder.sync_found);
    assert_eq!(decoder.sync_count, 3);
    decoder.push_pulse(SYNC, &mut collected);
    assert!(decoder.sync_found);
    assert!(collected.is_empty());
}

#[test]
fn sync_pulse_after_synchronizing_is_passed_over() {
    let mut decoder = synchronized();
    let mut collected: Vec<u16> = Vec::new();
    let before = decoder;
    decoder.push_pulse(SYNC, &mut collected);
    assert_eq!(decoder, before);
    assert!(collected.is_empty());
}

#[test]
fn data_pulses_are_collected_and_counted() {
    let mut decoder = synchronized();
    let mut collected: Vec<u16> = Vec::new();
    feed(&mut decoder, &mut collected, &[SHORT, LONG, 509]);
    assert_eq!(decoder.bit_count, 3);
    assert!(decoder.sync_found);
    assert_eq!(collected, vec![SHORT, LONG, 509]);
}

#[test]
fn noise_discards_message_in_progress() {
    for n in 1..64usize {
        let mut decoder = synchronized();
        let mut collected: Vec<u16> = vec![111, 222];
        for _ in 0..n {
            decoder.push_pulse(LONG, &mut collected);
        }
        assert_eq!(decoder.bit_count as usize, n);
        assert_eq!(collected.len(), n + 2);
        decoder.push_pulse(510, &mut collected);
        assert_eq!(collected, vec![111, 222], "after {} bits", n);
        assert!(!decoder.sync_found);
        assert_eq!(decoder.bit_count, 0);
        assert_eq!(decoder.sync_count, 0);
        assert!(!decoder.found_message);
    }
}

#[test]
fn sixty_four_clean_pulses_complete_one_message() {
    let mut decoder = synchronized();
    let mut collected: Vec<u16> = Vec::new();
    for i in 0..63 {
        decoder.push_pulse(if i % 2 == 0 { SHORT } else { LONG }, &mut collected);
        assert!(!decoder.found_message);
    }
    decoder.push_pulse(LONG, &mut collected);
    assert!(decoder.found_message);
    assert!(!decoder.sync_found);
    assert_eq!(decoder.bit_count, 0);
    assert_eq!(decoder.sync_count, 0);
    assert_eq!(collected.len(), 64);
}

#[test]
fn clear_keeps_found_flag() {
    let mut decoder = synchronized();
    decoder.found_message = true;
    decoder.decoded_message = 5;
    decoder.clear();
    assert!(decoder.found_message);
    assert!(!decoder.sync_found);
    assert_eq!(decoder.decoded_message, 0);
    assert_eq!(decoder.sync_count, 0);
    assert_eq!(decoder.bit_count, 0);
}

#[test]
fn well_formed_decoder_counts_within_bounds() {
    let mut decoder = Decoder::new();
    let collected: Vec<u16> = vec![LONG, LONG];
    assert!(decoder.is_well_formed(&collected));
    decoder.sync_count = 4;
    assert!(!decoder.is_well_formed(&collected));
    decoder.sync_found = true;
    decoder.bit_count = 2;
    assert!(decoder.is_well_formed(&collected));
    decoder.bit_count = 3;
    assert!(!decoder.is_well_formed(&collected));
    decoder.bit_count = 64;
    assert!(!decoder.is_well_formed(&vec![SHORT; 64]));
    decoder.sync_found = false;
    decoder.sync_count = 0;
    decoder.bit_count = 1;
    assert!(!decoder.is_well_formed(&collected));
}
