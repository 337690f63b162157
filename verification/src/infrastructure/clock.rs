//! Readings of the wall clock.

use vstd::prelude::*;

verus! {

/// A reading of the wall clock.
#[derive(Debug, Clone)]
pub struct WallClock {
    /// Milliseconds since the Unix epoch.
    pub millis: i64,
    /// The same moment as an RFC 3339 date and time.
    pub rfc3339: String,
}

/// Calls `chrono::Utc::now` and reads the moment it returns twice: with
/// `DateTime::timestamp_millis` and with `DateTime::to_rfc3339`. Nothing is claimed of
/// either reading.
#[verifier::external_body]
pub(crate) fn wall_clock_now() -> (reading: WallClock) {
    let now = chrono::Utc::now();
    WallClock { millis: now.timestamp_millis(), rfc3339: now.to_rfc3339() }
}

} // verus!
