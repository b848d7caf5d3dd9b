//! The generator as a mathematical value, and what one clock reading does to
//! it. The contracts of the generator are stated over this model.

use crate::config::Config;
use crate::error::CornFlakeError;
use crate::layout::{fields_fit, identifier};
use crate::text::numeral;
use vstd::arithmetic::power2::pow2;
use vstd::prelude::*;

verus! {

/// All that a generator's behaviour depends on.
pub struct FlakeState {
    /// The identifier of the node, written into every identifier issued.
    pub node_id: u64,
    /// Width in bits of the node field.
    pub node_id_bits: u64,
    /// Width in bits of the sequence field.
    pub sequence_bits: u64,
    /// The instant timestamps are counted from, in seconds since the Unix
    /// epoch.
    pub epoch: u64,
    /// The sequence number of the last identifier issued, zero before any.
    pub sequence: u64,
    /// The millisecond of the last identifier issued, none before any.
    pub last_timestamp: Option<u64>,
}

impl FlakeState {
    /// What every generator meets: node identifier and sequence fit their
    /// fields, the fields leave the timestamp its bits, and the sequence
    /// stands at zero until an identifier is issued.
    pub open spec fn inv(self) -> bool {
        &&& fields_fit(self.node_id, self.sequence, self.node_id_bits, self.sequence_bits)
        &&& self.last_timestamp is None ==> self.sequence == 0
    }

    /// The generator built from a configuration, before any identifier.
    pub open spec fn initial(config: Config) -> FlakeState {
        FlakeState {
            node_id: config.node_id,
            node_id_bits: config.node_id_bits as u64,
            sequence_bits: config.sequence_bits as u64,
            epoch: config.epoch,
            sequence: 0,
            last_timestamp: None,
        }
    }

    /// The identifier this generator's layout gives a timestamp and a
    /// sequence number.
    pub open spec fn identifier(self, timestamp: u64, sequence: u64) -> u64 {
        identifier(timestamp, self.node_id, sequence, self.node_id_bits, self.sequence_bits)
    }

    /// The last identifier issued, if any.
    pub open spec fn last_identifier(self) -> Option<u64> {
        match self.last_timestamp {
            Some(last) => Some(self.identifier(last, self.sequence)),
            None => None,
        }
    }

    /// The last identifier issued as a number, and -1 before any.
    pub open spec fn rank(self) -> int {
        match self.last_identifier() {
            Some(id) => id as int,
            None => -1,
        }
    }

    /// The millisecond of the last identifier issued, and -1 before any.
    pub open spec fn reached(self) -> int {
        match self.last_timestamp {
            Some(last) => last as int,
            None => -1,
        }
    }

    /// The timestamp in the readable form: that of the last identifier
    /// issued, and zero before any.
    pub open spec fn shown_timestamp(self) -> u64 {
        match self.last_timestamp {
            Some(last) => last,
            None => 0,
        }
    }

    /// The readable form: the last timestamp, the node identifier and the
    /// sequence number, each in hexadecimal.
    pub open spec fn text(self) -> Seq<char> {
        "flake-"@ + numeral(self.shown_timestamp() as nat, 16) + "-"@ + numeral(
            self.node_id as nat,
            16,
        ) + "-"@ + numeral(self.sequence as nat, 16)
    }

    /// The reading lies before the millisecond of the last identifier. No
    /// reading does before an identifier has been issued.
    pub open spec fn regressed_at(self, timestamp: u64) -> bool {
        self.last_timestamp matches Some(last) && timestamp < last
    }

    /// The reading is the millisecond of the last identifier: the same
    /// millisecond as that of the call before.
    pub open spec fn repeats_at(self, timestamp: u64) -> bool {
        self.last_timestamp == Some(timestamp)
    }

    /// The reading is the millisecond of the last identifier, and that
    /// millisecond has no sequence number left.
    pub open spec fn exhausted_at(self, timestamp: u64) -> bool {
        self.repeats_at(timestamp) && self.sequence + 1 == pow2(self.sequence_bits as nat)
    }

    /// The reading is a millisecond in which the generator has issued
    /// nothing yet, and none before one in which it has.
    pub open spec fn is_new_at(self, timestamp: u64) -> bool {
        !self.regressed_at(timestamp) && !self.repeats_at(timestamp)
    }

    /// Whether a reading lets the generator issue an identifier.
    pub open spec fn issues_at(self, timestamp: u64) -> bool {
        !self.regressed_at(timestamp) && !self.exhausted_at(timestamp)
    }

    /// The sequence number of an identifier issued at a reading: the next one
    /// in the millisecond of the last identifier, zero in any other, the first
    /// of a new generator among them.
    pub open spec fn next_sequence(self, timestamp: u64) -> u64 {
        if self.repeats_at(timestamp) {
            (self.sequence + 1) as u64
        } else {
            0
        }
    }

    /// The generator after it has issued an identifier at a reading that lets
    /// it.
    pub open spec fn issued(self, timestamp: u64) -> FlakeState {
        FlakeState {
            sequence: self.next_sequence(timestamp),
            last_timestamp: Some(timestamp),
            ..self
        }
    }

    /// The generator after one reading: moved on where the reading lets it
    /// issue an identifier, untouched where it does not.
    pub open spec fn after(self, timestamp: u64) -> FlakeState {
        if self.issues_at(timestamp) {
            self.issued(timestamp)
        } else {
            self
        }
    }

    /// What one reading yields: an error for a reading that went back in time,
    /// nothing yet for a millisecond that is used up, and else the identifier
    /// made of the reading and the next sequence number.
    pub open spec fn outcome(self, timestamp: u64) -> Result<Option<u64>, CornFlakeError> {
        if self.regressed_at(timestamp) {
            Err(CornFlakeError::ClockMovedBackwards)
        } else if self.exhausted_at(timestamp) {
            Ok(None)
        } else {
            Ok(Some(self.identifier(timestamp, self.next_sequence(timestamp))))
        }
    }

    /// What a call that reads the clock itself may answer, and leave of the
    /// generator. An identifier is the outcome of the reading that the
    /// generator then holds as its last timestamp, and the generator has moved
    /// on as that reading makes it. An error leaves the generator as it was,
    /// and that of a clock that moved backwards comes only once an identifier
    /// has been issued at a millisecond after the epoch.
    pub open spec fn answers(
        self,
        answer: Result<u64, CornFlakeError>,
        then: FlakeState,
    ) -> bool {
        match answer {
            Ok(id) => {
                &&& then.last_timestamp matches Some(timestamp) && self.outcome(timestamp) == Ok::<
                    Option<u64>,
                    CornFlakeError,
                >(Some(id)) && then == self.after(timestamp)
            },
            Err(error) => {
                &&& then == self
                &&& error == CornFlakeError::ClockMovedBackwards ==> self.reached() > 0
            },
        }
    }

    /// The generator after the same reading has been given to it `count`
    /// times in a row.
    pub open spec fn after_repeated(self, timestamp: u64, count: nat) -> FlakeState
        decreases count,
    {
        if count == 0 {
            self
        } else {
            self.after_repeated(timestamp, (count - 1) as nat).after(timestamp)
        }
    }

    /// The generator after a run of readings, taken in order.
    pub open spec fn after_all(self, readings: Seq<u64>) -> FlakeState
        decreases readings.len(),
    {
        if readings.len() == 0 {
            self
        } else {
            self.after(readings.first()).after_all(readings.drop_first())
        }
    }
}

} // verus!
