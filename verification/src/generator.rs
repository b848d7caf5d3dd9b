//! The identifier generator.

use crate::clock::{is_reading_since, read_epoch_millis};
use crate::config::Config;
use crate::error::{CornFlakeConfigError, CornFlakeConfigResult, CornFlakeError, CornFlakeResult};
use crate::layout::{compose, field_limit, field_mask, lemma_one_shifted, MAX_LOW_BITS};
use crate::state::FlakeState;
use crate::text::hexadecimal;
use vstd::arithmetic::power2::pow2;
use vstd::prelude::*;
use vstd::string::StringExecFns;

verus! {

/// How often a generator that has used up a millisecond reads the clock again
/// before it gives up on a clock that stands still.
pub const MAX_WAIT_POLLS: u64 = 0xffff_ffff_ffff_ffff;

/// A generator of identifiers for one node. It has a single owner: every
/// identifier comes from a call that holds it exclusively.
#[derive(Debug)]
pub struct CornFlake {
    node_id: u64,
    sequence: u64,
    sequence_mask: u64,
    last_timestamp: Option<u64>,
    epoch: u64,
    node_id_left_shift: u64,
    timestamp_left_shift: u64,
}

impl View for CornFlake {
    type V = FlakeState;

    closed spec fn view(&self) -> FlakeState {
        FlakeState {
            node_id: self.node_id,
            node_id_bits: (self.timestamp_left_shift - self.node_id_left_shift) as u64,
            sequence_bits: self.node_id_left_shift,
            epoch: self.epoch,
            sequence: self.sequence,
            last_timestamp: self.last_timestamp,
        }
    }
}

impl CornFlake {
    #[verifier::type_invariant]
    closed spec fn well_formed(&self) -> bool {
        &&& self.node_id_left_shift <= self.timestamp_left_shift <= MAX_LOW_BITS
        &&& self.sequence_mask == pow2(self.node_id_left_shift as nat) - 1
        &&& self.sequence <= self.sequence_mask
        &&& self.last_timestamp is None ==> self.sequence == 0
        &&& self.node_id < pow2((self.timestamp_left_shift - self.node_id_left_shift) as nat)
    }

    /// Builds a generator from a configuration whose widths are counts of
    /// bits. Every valid configuration gives a generator that has issued
    /// nothing yet; every other one gives the error of the rule it breaks, and
    /// that of the widths where it breaks both.
    pub fn new(config: &Config) -> (made: CornFlakeConfigResult<CornFlake>)
        requires
            config.has_widths(),
        ensures
            config.is_valid() <==> made is Ok,
            made matches Ok(flake) ==> flake@ == FlakeState::initial(*config) && flake@.inv(),
            !config.leaves_timestamp_bits() ==> made matches Err(
                CornFlakeConfigError::TooFewTimestampBits,
            ),
            config.leaves_timestamp_bits() && !config.node_id_fits() ==> (made matches Err(
                CornFlakeConfigError::NodeIdTooBig(id),
            ) && id == config.node_id),
            made matches Err(error) ==> config.rejection() == Some(error),
    {
        let node_id_bits: u64 = config.node_id_bits as u64;
        let sequence_bits: u64 = config.sequence_bits as u64;
        if node_id_bits + sequence_bits > MAX_LOW_BITS {
            return Err(CornFlakeConfigError::TooFewTimestampBits);
        }
        if config.node_id >= field_limit(node_id_bits) {
            return Err(CornFlakeConfigError::NodeIdTooBig(config.node_id));
        }
        Ok(
            CornFlake {
                node_id: config.node_id,
                sequence: 0,
                last_timestamp: None,
                epoch: config.epoch,
                node_id_left_shift: sequence_bits,
                timestamp_left_shift: node_id_bits + sequence_bits,
                sequence_mask: field_mask(sequence_bits),
            },
        )
    }

    /// The identifier of the node this generator issues for.
    pub fn node_id(&self) -> (node_id: u64)
        ensures
            self@.inv(),
            node_id == self@.node_id,
    {
        proof {
            use_type_invariant(self);
        }
        self.node_id
    }

    /// The generator in readable form.
    pub fn to_string(&self) -> (text: String)
        ensures
            text@ == self@.text(),
    {
        let shown: u64 = match self.last_timestamp {
            Some(last) => last,
            None => 0,
        };
        let mut text = String::from_str("flake-");
        text.append(hexadecimal(shown).as_str());
        text.append("-");
        text.append(hexadecimal(self.node_id).as_str());
        text.append("-");
        text.append(hexadecimal(self.sequence).as_str());
        text
    }

    /// Whether the reading lies before the millisecond of the last
    /// identifier.
    fn regressed_at(&self, timestamp: u64) -> (regressed: bool)
        ensures
            regressed == self@.regressed_at(timestamp),
    {
        match self.last_timestamp {
            Some(last) => timestamp < last,
            None => false,
        }
    }

    /// Whether the reading is the millisecond of the last identifier.
    fn repeats_at(&self, timestamp: u64) -> (repeats: bool)
        ensures
            repeats == self@.repeats_at(timestamp),
    {
        match self.last_timestamp {
            Some(last) => timestamp == last,
            None => false,
        }
    }

    /// Whether the reading is the millisecond of the last identifier and that
    /// millisecond has no sequence number left.
    fn exhausted_at(&self, timestamp: u64) -> (exhausted: bool)
        ensures
            exhausted == self@.exhausted_at(timestamp),
    {
        proof {
            use_type_invariant(self);
            Self::lemma_next_sequence(self.sequence, self.sequence_mask, self.node_id_left_shift);
        }
        self.repeats_at(timestamp) && (self.sequence + 1) & self.sequence_mask == 0
    }

    /// Under a mask of `bits` low bits, the successor of a sequence number
    /// below the mask is kept, and that of the mask itself becomes zero.
    proof fn lemma_next_sequence(sequence: u64, mask: u64, bits: u64)
        requires
            bits <= MAX_LOW_BITS,
            mask == pow2(bits as nat) - 1,
            sequence <= mask,
        ensures
            sequence + 1 <= u64::MAX,
            sequence < mask ==> (sequence + 1) as u64 & mask == sequence + 1,
            sequence == mask ==> (sequence + 1) as u64 & mask == 0,
    {
        lemma_one_shifted(bits);
        let limit: u64 = 1u64 << bits;
        assert(sequence < 0xffff_ffff && (sequence < mask ==> (sequence + 1) as u64 & mask
            == sequence + 1) && (sequence == mask ==> (sequence + 1) as u64 & mask == 0))
            by (bit_vector)
            requires
                bits <= 22,
                limit == 1u64 << bits,
                mask + 1 == limit,
                sequence <= mask,
        ;
    }

    /// Issues the identifier for a reading that allows one.
    fn issue(&mut self, timestamp: u64) -> (id: u64)
        requires
            old(self)@.issues_at(timestamp),
        ensures
            final(self)@ == old(self)@.issued(timestamp),
            id == old(self)@.identifier(timestamp, old(self)@.next_sequence(timestamp)),
    {
        proof {
            use_type_invariant(&*self);
            Self::lemma_next_sequence(self.sequence, self.sequence_mask, self.node_id_left_shift);
        }
        if self.repeats_at(timestamp) {
            self.sequence = (self.sequence + 1) & self.sequence_mask;
        } else {
            self.sequence = 0;
        }
        self.last_timestamp = Some(timestamp);
        compose(
            timestamp,
            self.node_id,
            self.sequence,
            self.timestamp_left_shift - self.node_id_left_shift,
            self.node_id_left_shift,
        )
    }

    /// What the generator does with one reading of the clock, given in
    /// milliseconds since its epoch. A reading before the last identifier's
    /// millisecond is an error. A reading in that millisecond, when its
    /// sequence numbers are used up, yields `None`: the caller is to read the
    /// clock again. Any other reading yields an identifier, with sequence
    /// number zero unless it is the millisecond of the last identifier. The
    /// generator moves on only when it issues one.
    pub fn next_id_at(&mut self, timestamp: u64) -> (outcome: CornFlakeResult<Option<u64>>)
        ensures
            old(self)@.inv(),
            outcome == old(self)@.outcome(timestamp),
            final(self)@ == old(self)@.after(timestamp),
    {
        proof {
            use_type_invariant(&*self);
        }
        if self.regressed_at(timestamp) {
            return Err(CornFlakeError::ClockMovedBackwards);
        }
        if self.exhausted_at(timestamp) {
            return Ok(None);
        }
        Ok(Some(self.issue(timestamp)))
    }

    /// Reads the clock in milliseconds since this generator's epoch. A count
    /// returned is that of an instant the clock can report; the only error is
    /// a read error.
    fn epoch_timestamp(&self) -> (reading: CornFlakeResult<u64>)
        ensures
            match reading {
                Ok(millis) => is_reading_since(millis, self@.epoch),
                Err(error) => error == CornFlakeError::ClockReadError,
            },
    {
        read_epoch_millis(self.epoch)
    }

    /// Waits out a millisecond that is used up, and issues the first
    /// identifier of the next: reads the clock again and again, and hands
    /// each reading to [`CornFlake::next_id_at`]. An identifier or an error
    /// that comes back is the answer; while nothing comes back, the clock is
    /// still in the used-up millisecond and is read once more. A clock that
    /// has not left that millisecond after [`MAX_WAIT_POLLS`] further readings
    /// counts as unreadable.
    ///
    /// What is returned, and what becomes of the generator, is decided by
    /// [`CornFlake::next_id_at`] at the last reading taken.
    fn til_next_ms(&mut self) -> (next: CornFlakeResult<u64>)
        ensures
            old(self)@.inv(),
            old(self)@.answers(next, final(self)@),
    {
        proof {
            use_type_invariant(&*self);
        }
        let mut polls_left: u64 = MAX_WAIT_POLLS;
        loop
            invariant
                self@ == old(self)@,
                self@.inv(),
            decreases polls_left,
        {
            let timestamp: u64 = match self.epoch_timestamp() {
                Ok(timestamp) => timestamp,
                Err(error) => {
                    return Err(error);
                },
            };
            match self.next_id_at(timestamp) {
                Ok(Some(id)) => {
                    return Ok(id);
                },
                Ok(None) => {},
                Err(error) => {
                    return Err(error);
                },
            }
            if polls_left == 0 {
                return Err(CornFlakeError::ClockReadError);
            }
            polls_left = polls_left - 1;
        }
    }

    /// Issues the next identifier by the system clock: reads the clock and
    /// hands the reading to [`CornFlake::next_id_at`]. An identifier or an
    /// error that comes back is the answer. When nothing comes back, the
    /// millisecond is used up, and the call waits for the next one.
    ///
    /// An identifier returned is the one [`CornFlake::next_id_at`] gives for
    /// the reading that the generator then holds as its last timestamp. An
    /// error leaves the generator as it was, and a clock that moved backwards
    /// is reported only by a generator that has issued an identifier at a
    /// millisecond after its epoch.
    pub fn next_id(&mut self) -> (next: CornFlakeResult<u64>)
        ensures
            old(self)@.inv(),
            old(self)@.answers(next, final(self)@),
    {
        proof {
            use_type_invariant(&*self);
        }
        let timestamp: u64 = match self.epoch_timestamp() {
            Ok(timestamp) => timestamp,
            Err(error) => {
                return Err(error);
            },
        };
        match self.next_id_at(timestamp) {
            Ok(Some(id)) => Ok(id),
            Ok(None) => self.til_next_ms(),
            Err(error) => Err(error),
        }
    }
}

} // verus!
