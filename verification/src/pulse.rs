//! Classification of a single high pulse by its duration.

use vstd::prelude::*;

verus! {

/// Nominal duration of a sync pulse, in receiver ticks.
pub const SYNC_PULSE: u16 = 620;

/// How far below the nominal duration a pulse still counts as a sync pulse.
pub const SYNC_MARGIN: u16 = 60;

/// Nominal duration of a short (zero) data pulse.
pub const SHORT_PULSE: u16 = 210;

/// Tolerance above the short pulse; the upper edge is the bit threshold.
pub const SHORT_MARGIN: u16 = 100;

/// Nominal duration of a long (one) data pulse.
pub const LONG_PULSE: u16 = 420;

/// Tolerance above the long pulse; anything at or past it is noise.
pub const LONG_MARGIN: u16 = 90;

/// Shortest duration that qualifies as a sync pulse.
pub open spec fn sync_threshold() -> int {
    SYNC_PULSE - SYNC_MARGIN
}

/// Shortest duration that is noise once a message is being collected.
pub open spec fn noise_threshold() -> int {
    LONG_PULSE + LONG_MARGIN
}

/// Durations above this value are a one bit, the others a zero bit.
pub open spec fn bit_threshold() -> int {
    SHORT_PULSE + SHORT_MARGIN
}

/// What one high pulse means to the decoder.
#[derive(Clone, Copy, Debug, PartialEq, Eq, Structural)]
pub enum PulseKind {
    /// A pulse long enough to belong to the sync preamble.
    Sync,
    /// A data pulse carrying the given bit.
    Bit(bool),
    /// A pulse that fits neither the preamble nor the data.
    Invalid,
}

/// The meaning of a pulse of `duration` ticks. While the decoder searches
/// for the preamble a pulse is either a sync pulse or disqualifying; once
/// synchronized it is a data bit unless it is as long as noise.
pub open spec fn spec_classify(duration: u16, synchronized: bool) -> PulseKind {
    if synchronized {
        if duration >= noise_threshold() {
            PulseKind::Invalid
        } else {
            PulseKind::Bit(duration > bit_threshold())
        }
    } else {
        if duration >= sync_threshold() {
            PulseKind::Sync
        } else {
            PulseKind::Invalid
        }
    }
}

/// Whether a pulse of `duration` ticks qualifies as a sync pulse.
pub fn is_sync_pulse(duration: u16) -> (r: bool)
    ensures
        r == (duration >= 560),
        r == (spec_classify(duration, false) == PulseKind::Sync),
{
    duration >= SYNC_PULSE - SYNC_MARGIN
}

/// Whether a pulse of `duration` ticks is too long to be a data pulse.
pub fn is_noise_pulse(duration: u16) -> (r: bool)
    ensures
        r == (duration >= 510),
        r == (spec_classify(duration, true) == PulseKind::Invalid),
{
    duration >= LONG_PULSE + LONG_MARGIN
}

/// The data bit that a pulse of `duration` ticks carries.
pub fn pulse_bit(duration: u16) -> (r: bool)
    ensures
        r == (duration > 310),
        duration < 510 ==> spec_classify(duration, true) == PulseKind::Bit(r),
{
    duration > SHORT_PULSE + SHORT_MARGIN
}

/// Classifies one high pulse.
pub fn classify(duration: u16, synchronized: bool) -> (kind: PulseKind)
    ensures
        kind == spec_classify(duration, synchronized),
{
    if synchronized {
        if is_noise_pulse(duration) {
            PulseKind::Invalid
        } else {
            PulseKind::Bit(pulse_bit(duration))
        }
    } else {
        if is_sync_pulse(duration) {
            PulseKind::Sync
        } else {
            PulseKind::Invalid
        }
    }
}

} // verus!
