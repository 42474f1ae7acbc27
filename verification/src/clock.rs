//! The time of day.

use vstd::prelude::*;

verus! {

/// The seconds that have passed since 1970-01-01 UTC.
///
/// Trusted: this is the `timestamp` of the `chrono::DateTime<Utc>` that the
/// crate's `From<SystemTime>` makes of the machine's clock; a clock that
/// stands before 1970 gives a negative number. Nothing is promised of the
/// value: two calls may differ in either direction.
#[verifier::external_body]
pub(crate) fn unix_now() -> i64 {
    chrono::DateTime::<chrono::Utc>::from(std::time::SystemTime::now()).timestamp()
}

} // verus!
