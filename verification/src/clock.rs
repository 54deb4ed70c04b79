//! The wall clock, as `chrono` reads it.

use vstd::prelude::*;

verus! {

/// Reads the system's clock with `SystemTime::now`, turns it into a
/// `chrono::DateTime<Utc>` and takes its `timestamp`: the seconds since the
/// start of 1970, negative for a clock that is set before it. The value
/// depends on when the call is made, so nothing is claimed of it.
#[verifier::external_body]
pub(crate) fn unix_now() -> (seconds: i64) {
    chrono::DateTime::<chrono::Utc>::from(std::time::SystemTime::now()).timestamp()
}

} // verus!
