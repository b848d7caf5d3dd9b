//! What can go wrong: a configuration that is refused, and a clock that
//! cannot be trusted while identifiers are issued.

use crate::text::{decimal, numeral};
use std::time::SystemTimeError;
use vstd::prelude::*;
use vstd::std_specs::convert::FromSpecImpl;
use vstd::string::StringExecFns;

verus! {

/// Why a configuration was refused. No change short of another configuration
/// makes the same construction succeed.
#[derive(Debug, Clone, Copy, PartialEq, Eq, Structural)]
pub enum CornFlakeConfigError {
    /// The node and sequence fields together leave fewer than 41 bits for the
    /// timestamp.
    TooFewTimestampBits,
    /// The node identifier, carried here, does not fit in its field.
    NodeIdTooBig(u64),
}

/// Why no identifier was issued by a call. The generator is left as it was,
/// and the caller decides whether to try again.
#[derive(Debug, Clone, Copy, PartialEq, Eq, Structural)]
pub enum CornFlakeError {
    /// The time source gave no usable reading.
    ClockReadError,
    /// The time source reported a millisecond earlier than that of the last
    /// identifier issued.
    ClockMovedBackwards,
}

impl CornFlakeConfigError {
    /// The name of the rule that was broken.
    pub open spec fn description_text(self) -> Seq<char> {
        match self {
            CornFlakeConfigError::TooFewTimestampBits => "TooFewTimestampBits (less then 41bit)"@,
            CornFlakeConfigError::NodeIdTooBig(_) => "NodeIdTooBig"@,
        }
    }

    /// The error in words: the rule that was broken and, for a node
    /// identifier, the offending value in decimal.
    pub open spec fn text(self) -> Seq<char> {
        match self {
            CornFlakeConfigError::TooFewTimestampBits => "TooFewTimestampBits (less then 41bit)"@,
            CornFlakeConfigError::NodeIdTooBig(id) => "NodeIdTooBig: "@ + numeral(id as nat, 10),
        }
    }

    /// The name of the rule that was broken, without the value that broke it.
    pub fn description(&self) -> (text: &'static str)
        ensures
            text@ == self.description_text(),
    {
        match self {
            CornFlakeConfigError::TooFewTimestampBits => "TooFewTimestampBits (less then 41bit)",
            CornFlakeConfigError::NodeIdTooBig(_) => "NodeIdTooBig",
        }
    }

    /// The error in words, as it is shown to a reader.
    pub fn to_string(&self) -> (text: String)
        ensures
            text@ == self.text(),
    {
        match self {
            CornFlakeConfigError::TooFewTimestampBits => String::from_str(
                "TooFewTimestampBits (less then 41bit)",
            ),
            CornFlakeConfigError::NodeIdTooBig(id) => {
                let digits = decimal(*id);
                String::from_str("NodeIdTooBig: ").concat(digits.as_str())
            },
        }
    }
}

impl From<SystemTimeError> for CornFlakeError {
    /// A system clock that stands before the Unix epoch gives no usable
    /// reading.
    fn from(error: SystemTimeError) -> (converted: CornFlakeError) {
        CornFlakeError::ClockReadError
    }
}

impl FromSpecImpl<SystemTimeError> for CornFlakeError {
    open spec fn obeys_from_spec() -> bool {
        true
    }

    open spec fn from_spec(error: SystemTimeError) -> CornFlakeError {
        CornFlakeError::ClockReadError
    }
}

pub type CornFlakeConfigResult<T> = Result<T, CornFlakeConfigError>;

pub type CornFlakeResult<T> = Result<T, CornFlakeError>;

} // verus!
