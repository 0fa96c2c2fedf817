use weather_station::pulse::{classify, is_noise_pulse, is_sync_pulse, pulse_bit, PulseKind};

#[test]
fn sync_pulse_threshold() {
    assert!(!is_sync_pulse(559));
    assert!(is_sync_pulse(560));
    assert!(is_sync_pulse(620));
    assert!(is_sync_pulse(u16::MAX));
}

#[test]
fn noise_pulse_threshold() {
    assert!(!is_noise_pulse(509));
    assert!(is_noise_pulse(510));
}

#[test]
fn bit_threshold_is_midpoint() {
    assert!(!pulse_bit(210));
    assert!(!pulse_bit(310));
    assert!(pulse_bit(311));
    assert!(pulse_bit(420));
}

#[test]
fn classification_while_searching() {
    assert_eq!(classify(620, false), PulseKind::Sync);
    assert_eq!(classify(560, false), PulseKind::Sync);
    assert_eq!(classify(559, false), PulseKind::Invalid);
    assert_eq!(classify(210, false), PulseKind::Invalid);
}

#[test]
fn classification_once_synchronized() {
    assert_eq!(classify(210, true), PulseKind::Bit(false));
    assert_eq!(classify(310, true), PulseKind::Bit(false));
    assert_eq!(classify(311, true), PulseKind::Bit(true));
    assert_eq!(classify(509, true), PulseKind::Bit(true));
    assert_eq!(classify(510, true), PulseKind::Invalid);
    assert_eq!(classify(620, true), PulseKind::Invalid);
}
