//! The system clock, and the arithmetic that turns a reading of it into
//! milliseconds since a generator's epoch.

use crate::error::CornFlakeError;
use std::time::{Duration, SystemTimeError};
use vstd::prelude::*;

verus! {

/// `std::time::SystemTimeError`, carried as an opaque value.
#[verifier::external_type_specification]
#[verifier::external_body]
pub struct ExSystemTimeError(SystemTimeError);

/// Calls `SystemTime::elapsed` on `std::time::UNIX_EPOCH`: the time from the
/// Unix epoch to now by the system clock, or the clock's error when it is set
/// before that epoch. Nothing is claimed of the value read.
#[verifier::external_body]
fn elapsed_since_unix_epoch() -> (elapsed: Result<Duration, SystemTimeError>) {
    std::time::UNIX_EPOCH.elapsed()
}

/// `Duration::as_secs`: the whole seconds of a duration. Nothing is claimed of
/// the number.
pub assume_specification[ Duration::as_secs ](duration: &Duration) -> (secs: u64);

/// `Duration::subsec_nanos`: the part of a duration beyond its whole seconds,
/// in nanoseconds, which is less than a second.
pub assume_specification[ Duration::subsec_nanos ](duration: &Duration) -> (nanos: u32)
    ensures
        nanos < 1_000_000_000,
;

/// Milliseconds in a second.
pub const MILLIS_PER_SEC: u64 = 1000;

/// Nanoseconds in a millisecond.
pub const NANOS_PER_MILLI: u32 = 1_000_000;

/// The whole milliseconds from `epoch` to the instant `secs` seconds and
/// `nanos` nanoseconds after the Unix epoch, where that instant is not before
/// `epoch` and the count fits in 64 bits.
pub open spec fn millis_since(secs: u64, nanos: u32, epoch: u64) -> Option<u64> {
    let millis = (secs - epoch) * MILLIS_PER_SEC + nanos / NANOS_PER_MILLI;
    if epoch <= secs && millis <= u64::MAX {
        Some(millis as u64)
    } else {
        None
    }
}

/// Nanoseconds in a second.
pub const NANOS_PER_SEC: u32 = 1_000_000_000;

/// Some instant that the clock can report, in whole seconds and a part of a
/// second, lies `millis` whole milliseconds after `epoch`.
pub open spec fn is_reading_since(millis: u64, epoch: u64) -> bool {
    exists|secs: u64, nanos: u32|
        nanos < NANOS_PER_SEC && #[trigger] millis_since(secs, nanos, epoch) == Some(millis)
}

/// Turns a reading of the clock, in seconds and nanoseconds since the Unix
/// epoch, into whole milliseconds since `epoch`. There is none for a reading
/// before `epoch`, nor for one so late that the count does not fit.
pub fn epoch_millis(secs: u64, nanos: u32, epoch: u64) -> (millis: Option<u64>)
    ensures
        millis == millis_since(secs, nanos, epoch),
{
    if secs < epoch {
        return None;
    }
    let whole: u64 = match (secs - epoch).checked_mul(MILLIS_PER_SEC) {
        Some(whole) => whole,
        None => {
            return None;
        },
    };
    let part: u32 = nanos / NANOS_PER_MILLI;
    whole.checked_add(part as u64)
}

/// Reads the system clock as whole milliseconds since `epoch`, which is given
/// in seconds since the Unix epoch. Fails when the clock cannot be read or
/// stands before `epoch`.
///
/// Which instant is read is the clock's to say. A count returned is the one
/// that [`epoch_millis`] gives for the instant read; the only error is a read
/// error.
pub fn read_epoch_millis(epoch: u64) -> (reading: Result<u64, CornFlakeError>)
    ensures
        match reading {
            Ok(millis) => is_reading_since(millis, epoch),
            Err(error) => error == CornFlakeError::ClockReadError,
        },
{
    match elapsed_since_unix_epoch() {
        Ok(elapsed) => {
            let secs: u64 = elapsed.as_secs();
            let nanos: u32 = elapsed.subsec_nanos();
            match epoch_millis(secs, nanos, epoch) {
                Some(millis) => {
                    assert(millis_since(secs, nanos, epoch) == Some(millis));
                    Ok(millis)
                },
                None => Err(CornFlakeError::ClockReadError),
            }
        },
        Err(error) => Err(CornFlakeError::from(error)),
    }
}

} // verus!
