//! The wall clock.

use vstd::prelude::*;

verus! {

/// The current time in whole seconds since the Unix epoch, read with
/// `chrono::Utc::now()` and `DateTime::timestamp()`.
///
/// Nothing is claimed of the value: it is whatever the machine's clock says,
/// and two readings may differ in either direction. `Utc::now()` panics when
/// the system clock stands before the epoch, so the timestamp it gives is
/// never negative and the change of type loses nothing.
#[verifier::external_body]
pub(crate) fn unix_now() -> u64 {
    chrono::Utc::now().timestamp() as u64
}

} // verus!
