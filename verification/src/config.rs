//! The parameters of a generator and the rules a set of them must meet.

use crate::error::CornFlakeConfigError;
use crate::layout::MAX_LOW_BITS;
use crate::text::{byte_value, hexadecimal, hexadecimal_byte, numeral};
use vstd::arithmetic::power2::pow2;
use vstd::prelude::*;
use vstd::string::StringExecFns;

verus! {

/// The start of 2016 in central European time (2015-12-31T23:00:00Z), in
/// seconds since the Unix epoch.
pub const DEFAULT_EPOCH: u64 = 1451602800;

/// The parameters of one generator.
#[derive(Debug, Clone, Copy)]
pub struct Config {
    /// Width in bits of the node field.
    pub node_id_bits: i8,
    /// Width in bits of the sequence field.
    pub sequence_bits: i8,
    /// The identifier of this generator among all that share a layout.
    pub node_id: u64,
    /// The instant timestamps are counted from, in seconds since the Unix
    /// epoch.
    pub epoch: u64,
}

impl Config {
    /// Both widths are counts of bits: neither is negative.
    pub open spec fn has_widths(&self) -> bool {
        0 <= self.node_id_bits && 0 <= self.sequence_bits
    }

    /// Tells whether both widths are counts of bits, as a generator asks of
    /// the configuration it is built from.
    pub fn widths_are_counts(&self) -> (counts: bool)
        ensures
            counts == self.has_widths(),
    {
        0 <= self.node_id_bits && 0 <= self.sequence_bits
    }

    /// The node and sequence fields leave at least 41 bits for the timestamp.
    pub open spec fn leaves_timestamp_bits(&self) -> bool {
        self.node_id_bits + self.sequence_bits <= MAX_LOW_BITS
    }

    /// The node identifier fits in the node field.
    pub open spec fn node_id_fits(&self) -> bool {
        self.node_id < pow2(self.node_id_bits as nat)
    }

    /// A configuration a generator can be built from.
    pub open spec fn is_valid(&self) -> bool {
        self.leaves_timestamp_bits() && self.node_id_fits()
    }

    /// The readable form: the node width, the node identifier and the
    /// sequence width, each in hexadecimal.
    pub open spec fn text(&self) -> Seq<char> {
        "config-"@ + numeral(byte_value(self.node_id_bits), 16) + "-"@ + numeral(
            self.node_id as nat,
            16,
        ) + "-"@ + numeral(byte_value(self.sequence_bits), 16)
    }

    /// The configuration in readable form.
    pub fn to_string(&self) -> (text: String)
        ensures
            text@ == self.text(),
    {
        let mut text = String::from_str("config-");
        text.append(hexadecimal_byte(self.node_id_bits).as_str());
        text.append("-");
        text.append(hexadecimal(self.node_id).as_str());
        text.append("-");
        text.append(hexadecimal_byte(self.sequence_bits).as_str());
        text
    }

    /// The reason this configuration is refused, if it is. The widths are
    /// judged first, so a configuration that breaks both rules is refused for
    /// its widths.
    pub open spec fn rejection(&self) -> Option<CornFlakeConfigError> {
        if !self.leaves_timestamp_bits() {
            Some(CornFlakeConfigError::TooFewTimestampBits)
        } else if !self.node_id_fits() {
            Some(CornFlakeConfigError::NodeIdTooBig(self.node_id))
        } else {
            None
        }
    }
}

impl Default for Config {
    /// Ten bits each for node and sequence, node 0, counted from
    /// [`DEFAULT_EPOCH`].
    fn default() -> (config: Config)
        ensures
            config == (Config {
                node_id_bits: 10,
                sequence_bits: 10,
                node_id: 0,
                epoch: DEFAULT_EPOCH,
            }),
    {
        Config { node_id_bits: 10, sequence_bits: 10, node_id: 0, epoch: DEFAULT_EPOCH }
    }
}

} // verus!
