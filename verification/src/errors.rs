use vstd::prelude::*;

verus! {

/// Failures that a decode call can report.
///
/// Field extraction itself is total on an in-bounds buffer, so errors arise
/// only from the buffer-length check, preamble validation, subframe-id
/// validation and the optional parity validation.
#[derive(Clone, Copy, Debug, PartialEq, Eq, Structural)]
pub enum GpsError {
    /// Fewer than [`crate::GPS_MIN_SIZE`] bits are available from the
    /// requested offset.  Recoverable: supply more data.
    InsufficientBuffer,
    /// The telemetry word does not open with [`crate::GPS_PREAMBLE`]: the
    /// requested offset is not a frame boundary.  Recoverable: advance the
    /// search offset.
    PreambleMismatch,
    /// The handover word names a subframe id outside the supported `1..=3`
    /// range.
    UnsupportedSubframeId,
    /// A word of the frame fails the structural parity check.
    ParityFailure,
    /// A requested bit range lies outside the buffer.
    OutOfRange,
}

} // verus!
