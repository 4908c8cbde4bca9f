//! The wall clock, read through `chrono`.

use vstd::prelude::*;

verus! {

/// Trusted: `std::time::SystemTime::now`, made a `chrono::DateTime<Utc>` by
/// chrono's `From<SystemTime>`, then `DateTime::timestamp`: the seconds since
/// the Unix epoch at the time of the call, negative where the machine's clock
/// stands before the epoch.
///
/// Nothing is claimed of the value, which differs from call to call. The
/// conversion takes every time within chrono's range of years, which reaches
/// more than 260,000 years to either side of the epoch.
#[verifier::external_body]
pub(crate) fn unix_time() -> i64 {
    chrono::DateTime::<chrono::Utc>::from(std::time::SystemTime::now()).timestamp()
}

} // verus!
