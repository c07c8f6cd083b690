//! The system clock.

use vstd::prelude::*;

verus! {

/// The current Unix time in seconds, from `std::time::SystemTime::now`,
/// chrono's `From<SystemTime> for DateTime<Utc>` and `DateTime::timestamp`.
/// That conversion gives a negative time for a clock set before 1970 rather
/// than failing (as `Utc::now` would); it unwraps only for a clock set
/// beyond the years -262143 to 262142 that chrono represents. Nothing is
/// claimed of the value: it is the clock's.
#[verifier::external_body]
pub(crate) fn utc_now_timestamp() -> (now: i64) {
    chrono::DateTime::<chrono::Utc>::from(std::time::SystemTime::now()).timestamp()
}

} // verus!
