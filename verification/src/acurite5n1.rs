//! One burst of the sensor: from the receiver's pulse pairs to a validated
//! message.

use vstd::prelude::*;
use crate::decoder::{
    cleared, lemma_full_message, lemma_run_split, lemma_sync_run, spec_run, spec_wf,
    trailing_sync_run, Decoder,
};
use crate::message::{decode_message, spec_decode, Acurite5n1Message};
use crate::pulse::pulse_bit;
use crate::validator::{is_message_integrity_good, spec_message_integrity_good};

verus! {

/// How long the receiver rests after a burst, in milliseconds. The sensor
/// reports about every 18 seconds.
pub const COOL_DOWN_MS: u32 = 17000;

/// Logic level of a pulse.
#[derive(Clone, Copy, Debug, PartialEq, Eq, Structural)]
pub enum PinState {
    Low,
    High,
}

/// One level held for a number of receiver ticks.
#[derive(Clone, Copy, Debug, PartialEq, Eq, Structural)]
pub struct Pulse {
    pub pin_state: PinState,
    pub ticks: u16,
}

/// The duration of the high pulse of a pair: that of the first pulse where
/// it is high, else that of the second.
pub open spec fn spec_high_pulse(pair: (Pulse, Pulse)) -> u16 {
    if pair.0.pin_state == PinState::High {
        pair.0.ticks
    } else {
        pair.1.ticks
    }
}

/// The durations of the high pulses of a sequence of pairs.
pub open spec fn spec_high_pulses(pairs: Seq<(Pulse, Pulse)>) -> Seq<u16> {
    Seq::new(pairs.len(), |i: int| spec_high_pulse(pairs[i]))
}

/// The duration of the high pulse of a pair.
pub fn high_pulse(pair: &(Pulse, Pulse)) -> (ticks: u16)
    ensures
        ticks == spec_high_pulse(*pair),
{
    match pair.0.pin_state {
        PinState::High => pair.0.ticks,
        PinState::Low => pair.1.ticks,
    }
}

/// The word after one more data pulse: the bits move up by one and the
/// pulse's bit comes in at the bottom.
pub open spec fn shift_in(word: u64, pulse: u16) -> u64 {
    if pulse > 310 {
        (word << 1) | 1
    } else {
        word << 1
    }
}

/// The word after the data pulses `pulses` were shifted into `word`, the
/// first pulse first.
pub open spec fn accumulate(word: u64, pulses: Seq<u16>) -> u64
    decreases pulses.len(),
{
    if pulses.len() == 0 {
        word
    } else {
        shift_in(accumulate(word, pulses.drop_last()), pulses.last())
    }
}

/// The `k`-th group of 64 data pulses, read as a word with the first pulse
/// as the most significant bit.
pub open spec fn word_at(pulses: Seq<u16>, k: int) -> u64
    recommends
        0 <= k,
        64 * (k + 1) <= pulses.len(),
{
    accumulate(0, pulses.subrange(64 * k, 64 * k + 64))
}

/// The first group, from the `k`-th on, whose word is a good message.
pub open spec fn first_good_from(pulses: Seq<u16>, k: int) -> Option<int>
    decreases pulses.len() - 64 * k,
{
    if k < 0 || 64 * (k + 1) > pulses.len() {
        None
    } else if spec_message_integrity_good(word_at(pulses, k)) {
        Some(k)
    } else {
        first_good_from(pulses, k + 1)
    }
}

/// The word of the first whole group of 64 data pulses that is a good
/// message, if there is one. Groups do not overlap, and pulses after the
/// last whole group are left out.
pub open spec fn first_good_word(pulses: Seq<u16>) -> Option<u64> {
    match first_good_from(pulses, 0) {
        Some(k) => Some(word_at(pulses, k)),
        None => None,
    }
}

/// Shifting in `a` and then `b` is shifting in `a + b`.
pub proof fn lemma_accumulate_split(word: u64, a: Seq<u16>, b: Seq<u16>)
    ensures
        accumulate(word, a + b) == accumulate(accumulate(word, a), b),
    decreases b.len(),
{
    if b.len() == 0 {
        assert(a + b =~= a);
    } else {
        lemma_accumulate_split(word, a, b.drop_last());
        assert((a + b).drop_last() =~= a + b.drop_last());
    }
}

/// After fewer than 64 pulses the word that was there at the start has moved
/// up by their number, and the pulses' bits stand below it.
proof fn lemma_accumulate_partial(word: u64, pulses: Seq<u16>)
    requires
        pulses.len() < 64,
    ensures
        accumulate(word, pulses) == (word << (pulses.len() as u64)) | accumulate(0, pulses),
    decreases pulses.len(),
{
    if pulses.len() == 0 {
        assert(word == (word << 0u64) | 0u64) by (bit_vector);
    } else {
        let front = pulses.drop_last();
        lemma_accumulate_partial(word, front);
        let j: u64 = front.len() as u64;
        let n: u64 = pulses.len() as u64;
        let low: u64 = accumulate(0, front);
        assert((((word << j) | low) << 1) | 1 == (word << n) | ((low << 1) | 1) && ((word << j)
            | low) << 1 == (word << n) | (low << 1)) by (bit_vector)
            requires
                n == j + 1,
                n < 64,
        ;
    }
}

/// A word that 64 pulses were shifted into holds their bits and nothing of
/// what was there before.
pub proof fn lemma_accumulate_window(word: u64, pulses: Seq<u16>)
    requires
        pulses.len() == 64,
    ensures
        accumulate(word, pulses) == accumulate(0, pulses),
{
    let front = pulses.drop_last();
    lemma_accumulate_partial(word, front);
    let low: u64 = accumulate(0, front);
    assert((((word << 63u64) | low) << 1) | 1 == (low << 1) | 1 && ((word << 63u64) | low) << 1
        == low << 1) by (bit_vector);
}

/// The word after the first `k + 1` groups of 64 pulses is the word of the
/// `k`-th group.
proof fn lemma_group_word(word: u64, pulses: Seq<u16>, k: int)
    requires
        0 <= k,
        64 * (k + 1) <= pulses.len(),
    ensures
        accumulate(word, pulses.take(64 * (k + 1))) == word_at(pulses, k),
{
    let head = pulses.take(64 * k);
    let group = pulses.subrange(64 * k, 64 * k + 64);
    assert(pulses.take(64 * (k + 1)) =~= head + group);
    lemma_accumulate_split(word, head, group);
    lemma_accumulate_window(accumulate(word, head), group);
}

/// In the word of up to 64 data pulses the pulses stand as bits, the last
/// pulse lowest: a pulse longer than the bit threshold as a one, any other
/// as a zero.
pub proof fn lemma_accumulate_bits(pulses: Seq<u16>, j: int)
    requires
        pulses.len() <= 64,
        0 <= j < pulses.len(),
    ensures
        ((accumulate(0, pulses) >> ((pulses.len() - 1 - j) as u64)) & 1 == 1) == (pulses[j] > 310),
    decreases pulses.len(),
{
    let front = pulses.drop_last();
    let word: u64 = accumulate(0, front);
    if j == pulses.len() - 1 {
        assert((((word << 1) | 1) >> 0u64) & 1 == 1 && ((word << 1) >> 0u64) & 1 == 0)
            by (bit_vector);
    } else {
        lemma_accumulate_bits(front, j);
        let k: u64 = (pulses.len() - 1 - j) as u64;
        let below: u64 = (front.len() - 1 - j) as u64;
        assert((((word << 1) | 1) >> k) & 1 == (word >> below) & 1 && ((word << 1) >> k) & 1 == (
        word >> below) & 1) by (bit_vector)
            requires
                1 <= k <= 63,
                below == k - 1,
        ;
    }
}

/// What the receiver is to do after a batch of pulses.
#[derive(Clone, Copy, Debug, PartialEq, Eq, Structural)]
pub enum ReceiverAction {
    /// Nothing was completed: go on receiving.
    KeepListening,
    /// A message was completed. Stop the receiver, hand on the message if
    /// one validated, and start the receiver again after the cool-down.
    Rest(Option<Acurite5n1Message>),
}

/// The decoding side of the sensor: pulses in, messages out.
#[derive(Clone, Copy, Debug, PartialEq, Eq, Structural)]
pub struct Acurite5n1 {
    pub decoder: Decoder,
}

/// The data pulses of whole messages that are left when the pulses `highs`
/// have arrived: what was collected, without the pulses of a message that
/// was still in progress at the end.
pub open spec fn spec_kept(d: Decoder, collected: Seq<u16>, highs: Seq<u16>) -> Seq<u16> {
    let after = spec_run(d, collected, highs);
    after.1.take(after.1.len() - after.0.bit_count)
}

/// What a batch of pulses asks of the receiver: to rest if a message was
/// completed, with the first good message among the whole groups that were
/// kept; else to go on.
pub open spec fn spec_action(d: Decoder, collected: Seq<u16>, highs: Seq<u16>) -> ReceiverAction {
    if spec_run(d, collected, highs).0.found_message {
        ReceiverAction::Rest(
            match first_good_word(spec_kept(d, collected, highs)) {
                Some(word) => Some(spec_decode(word)),
                None => None,
            },
        )
    } else {
        ReceiverAction::KeepListening
    }
}

/// A decoder that searches and has found nothing takes four sync pulses
/// and then the 64 data pulses of a good message: it asks the receiver to
/// rest and hands on that very message.
pub proof fn lemma_clean_burst_decodes(sync: Seq<u16>, data: Seq<u16>)
    requires
        sync.len() == 4,
        forall|i: int| 0 <= i < 4 ==> sync[i] >= 560,
        data.len() == 64,
        forall|i: int| 0 <= i < 64 ==> data[i] < 510,
        spec_message_integrity_good(accumulate(0, data)),
    ensures
        spec_action(cleared(false), Seq::empty(), sync + data) == ReceiverAction::Rest(
            Some(spec_decode(accumulate(0, data))),
        ),
{
    let start = cleared(false);
    let none = Seq::<u16>::empty();
    lemma_trailing_run_counts(sync);
    assert forall|i: int| 0 <= i < sync.len() implies trailing_sync_run(#[trigger] sync.take(i))
        < 4 by {
        lemma_trailing_run_counts(sync.take(i));
    }
    lemma_sync_run(start, none, sync);
    let synced = spec_run(start, none, sync);
    assert(synced.0.sync_found && synced.0.bit_count == 0 && synced.1 == none);
    lemma_full_message(synced.0, synced.1, data);
    lemma_run_split(start, none, sync, data);
    let after = spec_run(start, none, sync + data);
    assert(after == (cleared(true), none + data));
    assert(none + data =~= data);
    assert(spec_kept(start, none, sync + data) =~= data);
    assert(data.subrange(0, 64) =~= data);
}

/// A sequence that ends in nothing but sync pulses has a trailing run as
/// long as itself.
proof fn lemma_trailing_run_counts(highs: Seq<u16>)
    requires
        forall|i: int| 0 <= i < highs.len() ==> highs[i] >= 560,
    ensures
        trailing_sync_run(highs) == highs.len(),
    decreases highs.len(),
{
    if highs.len() > 0 {
        lemma_trailing_run_counts(highs.drop_last());
    }
}

impl Acurite5n1 {
    /// A decoder that searches for the preamble.
    pub fn new() -> (acurite: Acurite5n1)
        ensures
            acurite.decoder == cleared(false),
    {
        Acurite5n1 { decoder: Decoder::new() }
    }

    /// Sends the decoder back to searching.
    pub fn clear_decoder(&mut self)
        ensures
            final(self).decoder == cleared(old(self).decoder.found_message),
    {
        self.decoder.clear();
    }

    /// Reads the data pulses in groups of 64, each as a word with the first
    /// pulse as its most significant bit, and stops at the first word that
    /// is a good message. That word is then in `decoder.decoded_message`.
    pub fn found_good_message(&mut self, message_pulses: &Vec<u16>) -> (found: bool)
        ensures
            found == first_good_word(message_pulses@).is_some(),
            found ==> final(self).decoder.decoded_message == first_good_word(
                message_pulses@,
            ).unwrap(),
            !found ==> final(self).decoder.decoded_message == accumulate(
                old(self).decoder.decoded_message,
                message_pulses@,
            ),
            final(self).decoder == (Decoder {
                decoded_message: final(self).decoder.decoded_message,
                ..old(self).decoder
            }),
    {
        let mut bit_count: u8 = 0;
        let mut i: usize = 0;
        let ghost k: int = 0;
        let ghost start: u64 = self.decoder.decoded_message;
        while i < message_pulses.len()
            invariant
                0 <= i <= message_pulses.len(),
                0 <= k,
                bit_count < 64,
                i == 64 * k + bit_count,
                self.decoder.decoded_message == accumulate(start, message_pulses@.take(i as int)),
                first_good_from(message_pulses@, 0) == first_good_from(message_pulses@, k),
                self.decoder == (Decoder {
                    decoded_message: self.decoder.decoded_message,
                    ..old(self).decoder
                }),
            decreases message_pulses.len() - i,
        {
            let pulse: u16 = message_pulses[i];
            proof {
                assert(message_pulses@.take(i + 1).drop_last() =~= message_pulses@.take(i as int));
            }
            if pulse_bit(pulse) {
                self.decoder.decoded_message = (self.decoder.decoded_message << 1) | 1;
            } else {
                self.decoder.decoded_message = self.decoder.decoded_message << 1;
            }
            bit_count = bit_count + 1;
            i = i + 1;
            if bit_count == 64 {
                proof {
                    lemma_group_word(start, message_pulses@, k);
                }
                if is_message_integrity_good(self.decoder.decoded_message) {
                    return true;
                }
                bit_count = 0;
                proof {
                    k = k + 1;
                }
            }
        }
        proof {
            assert(message_pulses@.take(i as int) =~= message_pulses@);
        }
        false
    }

    /// Takes in the first `length` pulse pairs of `the_pulses`, the batch
    /// that the receiver delivered. Each pair's high pulse goes through the
    /// decoder; a message still in progress at the end of the batch is
    /// dropped. If a message was completed, the kept pulses are validated,
    /// `message_pulses` is emptied, and the receiver is told to rest, with
    /// the decoded message if one validated. The decoder always ends up
    /// searching again. An empty batch changes nothing.
    pub fn parse_pulse_stream(
        &mut self,
        the_pulses: &Vec<(Pulse, Pulse)>,
        length: usize,
        message_pulses: &mut Vec<u16>,
    ) -> (action: ReceiverAction)
        requires
            length <= the_pulses.len(),
            spec_wf(old(self).decoder, old(message_pulses)@),
        ensures
            length == 0 ==> action == ReceiverAction::KeepListening && *final(self) == *old(self)
                && final(message_pulses)@ == old(message_pulses)@,
            length > 0 ==> action == spec_action(
                old(self).decoder,
                old(message_pulses)@,
                spec_high_pulses(the_pulses@.take(length as int)),
            ),
            length > 0 ==> final(self).decoder == cleared(false),
            length > 0 && action is Rest ==> final(message_pulses)@ == Seq::<u16>::empty(),
            length > 0 && action is KeepListening ==> final(message_pulses)@ == spec_kept(
                old(self).decoder,
                old(message_pulses)@,
                spec_high_pulses(the_pulses@.take(length as int)),
            ),
    {
        if length == 0 {
            return ReceiverAction::KeepListening;
        }
        let ghost highs = spec_high_pulses(the_pulses@.take(length as int));
        let mut i: usize = 0;
        while i < length
            invariant
                0 <= i <= length <= the_pulses.len(),
                highs == spec_high_pulses(the_pulses@.take(length as int)),
                (self.decoder, message_pulses@) == spec_run(
                    old(self).decoder,
                    old(message_pulses)@,
                    highs.take(i as int),
                ),
                spec_wf(self.decoder, message_pulses@),
            decreases length - i,
        {
            let high: u16 = high_pulse(&the_pulses[i]);
            proof {
                assert(highs.take(i + 1).drop_last() =~= highs.take(i as int));
                assert(highs.take(i + 1).last() == high);
            }
            self.decoder.push_pulse(high, message_pulses);
            i = i + 1;
        }
        proof {
            assert(highs.take(i as int) =~= highs);
        }
        if self.decoder.bit_count != 0 {
            let keep: usize = message_pulses.len() - self.decoder.bit_count as usize;
            message_pulses.truncate(keep);
        }
        proof {
            assert(message_pulses@ =~= spec_kept(old(self).decoder, old(message_pulses)@, highs));
        }
        let mut action: ReceiverAction = ReceiverAction::KeepListening;
        if self.decoder.found_message {
            let message: Option<Acurite5n1Message> = if self.found_good_message(message_pulses) {
                Some(self.process_message())
            } else {
                None
            };
            message_pulses.clear();
            self.decoder.found_message = false;
            action = ReceiverAction::Rest(message);
        }
        self.clear_decoder();
        action
    }

    /// Decodes the word that the last validation left in the decoder.
    pub fn process_message(&self) -> (message: Acurite5n1Message)
        ensures
            message == spec_decode(self.decoder.decoded_message),
            message.wf(),
    {
        decode_message(self.decoder.decoded_message)
    }
}

} // verus!
