//! The decoder's state machine: search for the sync preamble, then collect
//! the 64 data pulses of one message.

use vstd::prelude::*;
use crate::pulse::{classify, spec_classify, PulseKind};

verus! {

/// Number of consecutive sync pulses that start a message.
pub const SYNC_RUN: u8 = 4;

/// Number of data pulses in one message.
pub const MESSAGE_BITS: u16 = 64;

/// State of the decoder between two pulses.
#[derive(Clone, Copy, Debug, PartialEq, Eq, Structural)]
pub struct Decoder {
    /// The word that the last validation shifted together.
    pub decoded_message: u64,
    /// Length of the current run of sync pulses.
    pub sync_count: u8,
    /// Data pulses collected for the message in progress.
    pub bit_count: u16,
    /// Whether the preamble was seen and data pulses are being collected.
    pub sync_found: bool,
    /// Whether a full message was collected since the flag was last cleared.
    pub found_message: bool,
}

/// The state in which the decoder searches for a preamble, keeping only the
/// flag that says whether a message was found.
pub open spec fn cleared(found_message: bool) -> Decoder {
    Decoder { decoded_message: 0, sync_count: 0, bit_count: 0, sync_found: false, found_message }
}

/// One pulse of `high_pulse` ticks arrives while the decoder is in state `d`
/// and `collected` holds the data pulses kept so far, those of the message
/// in progress last.
///
/// While searching, a sync pulse lengthens the run and any other pulse ends
/// it; the fourth sync pulse in a row synchronizes. Once synchronized, a
/// pulse shorter than noise is kept as a data pulse, and the 64th completes
/// the message and sends the decoder back to searching. A noise pulse drops
/// the pulses of the message in progress and sends the decoder back to
/// searching, unless no data pulse was collected yet: then it is passed
/// over.
pub open spec fn spec_step(d: Decoder, collected: Seq<u16>, high_pulse: u16) -> (
    Decoder,
    Seq<u16>,
) {
    match spec_classify(high_pulse, d.sync_found) {
        PulseKind::Sync => (
            Decoder { sync_count: (d.sync_count + 1) as u8, sync_found: d.sync_count + 1 == 4, ..d },
            collected,
        ),
        PulseKind::Bit(_) => if d.bit_count + 1 == 64 {
            (cleared(true), collected.push(high_pulse))
        } else {
            (Decoder { bit_count: (d.bit_count + 1) as u16, ..d }, collected.push(high_pulse))
        },
        PulseKind::Invalid => if !d.sync_found {
            (Decoder { sync_count: 0, ..d }, collected)
        } else if d.bit_count != 0 {
            (cleared(d.found_message), collected.take(collected.len() - d.bit_count))
        } else {
            (d, collected)
        },
    }
}

/// The state after the pulses `highs` have arrived one after the other.
pub open spec fn spec_run(d: Decoder, collected: Seq<u16>, highs: Seq<u16>) -> (
    Decoder,
    Seq<u16>,
)
    decreases highs.len(),
{
    if highs.len() == 0 {
        (d, collected)
    } else {
        let before = spec_run(d, collected, highs.drop_last());
        spec_step(before.0, before.1, highs.last())
    }
}

/// What holds of the decoder between two pulses: the run of sync pulses is
/// shorter than four while searching, no data pulse is counted while
/// searching, fewer than 64 are counted once synchronized, and the counted
/// ones are the last of the collected pulses.
pub open spec fn spec_wf(d: Decoder, collected: Seq<u16>) -> bool {
    &&& !d.sync_found ==> d.sync_count < 4 && d.bit_count == 0
    &&& d.sync_found ==> d.bit_count < 64
    &&& d.bit_count <= collected.len()
}

impl Decoder {
    /// A decoder that searches for the preamble.
    pub fn new() -> (d: Decoder)
        ensures
            d == cleared(false),
            spec_wf(d, Seq::<u16>::empty()),
    {
        Decoder {
            decoded_message: 0,
            sync_count: 0,
            bit_count: 0,
            sync_found: false,
            found_message: false,
        }
    }

    /// Whether the decoder is well formed beside the data pulses that were
    /// collected.
    pub fn is_well_formed(&self, message_pulses: &Vec<u16>) -> (wf: bool)
        ensures
            wf == spec_wf(*self, message_pulses@),
    {
        let counts: bool = if self.sync_found {
            self.bit_count < MESSAGE_BITS
        } else {
            self.sync_count < SYNC_RUN && self.bit_count == 0
        };
        counts && self.bit_count as usize <= message_pulses.len()
    }

    /// Sends the decoder back to searching. The flag that says whether a
    /// message was found stays as it is.
    pub fn clear(&mut self)
        ensures
            *final(self) == cleared(old(self).found_message),
    {
        self.decoded_message = 0;
        self.sync_count = 0;
        self.bit_count = 0;
        self.sync_found = false;
    }

    /// Takes in one high pulse. The data pulses that are kept go to the end
    /// of `message_pulses`; those of a message that noise interrupted are
    /// taken off again.
    pub fn push_pulse(&mut self, high_pulse: u16, message_pulses: &mut Vec<u16>)
        requires
            spec_wf(*old(self), old(message_pulses)@),
        ensures
            (*final(self), final(message_pulses)@) == spec_step(
                *old(self),
                old(message_pulses)@,
                high_pulse,
            ),
            spec_wf(*final(self), final(message_pulses)@),
    {
        match classify(high_pulse, self.sync_found) {
            PulseKind::Sync => {
                self.sync_count += 1;
                if self.sync_count == SYNC_RUN {
                    self.sync_found = true;
                }
            },
            PulseKind::Bit(_) => {
                message_pulses.push(high_pulse);
                self.bit_count += 1;
                if self.bit_count == MESSAGE_BITS {
                    self.found_message = true;
                    self.clear();
                }
            },
            PulseKind::Invalid => {
                if !self.sync_found {
                    self.sync_count = 0;
                } else if self.bit_count != 0 {
                    let keep: usize = message_pulses.len() - self.bit_count as usize;
                    message_pulses.truncate(keep);
                    self.clear();
                }
            },
        }
    }
}

impl Default for Decoder {
    fn default() -> (d: Decoder)
        ensures
            d == cleared(false),
    {
        Decoder::new()
    }
}

/// A step keeps the decoder well formed.
pub proof fn lemma_step_wf(d: Decoder, collected: Seq<u16>, high_pulse: u16)
    requires
        spec_wf(d, collected),
    ensures
        spec_wf(spec_step(d, collected, high_pulse).0, spec_step(d, collected, high_pulse).1),
{
}

/// The count of data pulses grows only while the decoder is synchronized,
/// and then by one; whenever the decoder goes back to searching, the count
/// is zero again.
pub proof fn lemma_bit_count_discipline(d: Decoder, collected: Seq<u16>, high_pulse: u16)
    requires
        spec_wf(d, collected),
    ensures
        ({
            let after = spec_step(d, collected, high_pulse).0;
            &&& after.bit_count > d.bit_count ==> d.sync_found && after.sync_found
                && after.bit_count == d.bit_count + 1
            &&& !after.sync_found ==> after.bit_count == 0
            &&& !d.sync_found ==> after.bit_count == 0
        }),
{
}

/// A run keeps the decoder well formed.
pub proof fn lemma_run_wf(d: Decoder, collected: Seq<u16>, highs: Seq<u16>)
    requires
        spec_wf(d, collected),
    ensures
        spec_wf(spec_run(d, collected, highs).0, spec_run(d, collected, highs).1),
    decreases highs.len(),
{
    if highs.len() > 0 {
        lemma_run_wf(d, collected, highs.drop_last());
        let before = spec_run(d, collected, highs.drop_last());
        lemma_step_wf(before.0, before.1, highs.last());
    }
}

/// Pulses that arrive in two batches take the decoder where they take it
/// in one.
pub proof fn lemma_run_split(d: Decoder, collected: Seq<u16>, a: Seq<u16>, b: Seq<u16>)
    ensures
        spec_run(d, collected, a + b) == spec_run(
            spec_run(d, collected, a).0,
            spec_run(d, collected, a).1,
            b,
        ),
    decreases b.len(),
{
    if b.len() == 0 {
        assert(a + b =~= a);
    } else {
        lemma_run_split(d, collected, a, b.drop_last());
        assert((a + b).drop_last() =~= a + b.drop_last());
    }
}

/// The number of sync pulses at the end of `highs`.
pub open spec fn trailing_sync_run(highs: Seq<u16>) -> nat
    decreases highs.len(),
{
    if highs.len() == 0 || highs.last() < 560 {
        0
    } else {
        1 + trailing_sync_run(highs.drop_last())
    }
}

/// While the decoder searches, its run counter is the number of sync pulses
/// that arrived last, so any other pulse restarts the count from zero; and
/// it synchronizes at the very pulse that makes this number four. Nothing
/// is collected meanwhile.
pub proof fn lemma_sync_run(d: Decoder, collected: Seq<u16>, highs: Seq<u16>)
    requires
        !d.sync_found,
        d.sync_count == 0,
        forall|i: int| 0 <= i < highs.len() ==> trailing_sync_run(#[trigger] highs.take(i)) < 4,
    ensures
        trailing_sync_run(highs) <= 4,
        spec_run(d, collected, highs) == (
            Decoder {
                sync_count: trailing_sync_run(highs) as u8,
                sync_found: trailing_sync_run(highs) == 4,
                ..d
            },
            collected,
        ),
    decreases highs.len(),
{
    if highs.len() > 0 {
        let front = highs.drop_last();
        assert(front =~= highs.take(highs.len() - 1));
        assert forall|i: int| 0 <= i < front.len() implies trailing_sync_run(
            #[trigger] front.take(i),
        ) < 4 by {
            assert(front.take(i) =~= highs.take(i));
        }
        lemma_sync_run(d, collected, front);
    }
}

/// Once synchronized, a noise pulse that follows at least one data pulse
/// discards exactly the data pulses of the message in progress, and the
/// decoder searches again.
pub proof fn lemma_noise_discards(d: Decoder, collected: Seq<u16>, high_pulse: u16)
    requires
        spec_wf(d, collected),
        d.sync_found,
        d.bit_count > 0,
        high_pulse >= 510,
    ensures
        spec_step(d, collected, high_pulse) == (
            cleared(d.found_message),
            collected.take(collected.len() - d.bit_count),
        ),
{
}

/// Data pulses that do not complete the message are all kept and counted.
pub proof fn lemma_collecting(d: Decoder, collected: Seq<u16>, highs: Seq<u16>)
    requires
        d.sync_found,
        d.bit_count + highs.len() < 64,
        forall|i: int| 0 <= i < highs.len() ==> highs[i] < 510,
    ensures
        spec_run(d, collected, highs) == (
            Decoder { bit_count: (d.bit_count + highs.len()) as u16, ..d },
            collected + highs,
        ),
    decreases highs.len(),
{
    if highs.len() > 0 {
        lemma_collecting(d, collected, highs.drop_last());
        assert(collected + highs =~= (collected + highs.drop_last()).push(highs.last()));
    } else {
        assert(collected + highs =~= collected);
    }
}

/// Once synchronized, 64 pulses without noise always complete exactly one
/// message: all of them are kept, the message is flagged, and the decoder
/// searches again.
pub proof fn lemma_full_message(d: Decoder, collected: Seq<u16>, highs: Seq<u16>)
    requires
        d.sync_found,
        d.bit_count == 0,
        highs.len() == 64,
        forall|i: int| 0 <= i < highs.len() ==> highs[i] < 510,
    ensures
        spec_run(d, collected, highs) == (cleared(true), collected + highs),
{
    lemma_collecting(d, collected, highs.drop_last());
    assert(collected + highs =~= (collected + highs.drop_last()).push(highs.last()));
}

} // verus!
