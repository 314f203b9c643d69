//! The wall clock.
use vstd::prelude::*;

verus! {

/// `chrono::Local::now().timestamp_millis()`: the current time in
/// milliseconds since the Unix epoch. The intermediate `DateTime<Local>`
/// cannot be declared to Verus (its type parameter is bound by chrono's
/// `TimeZone` trait), so the two calls stand together here. chrono panics
/// when the system clock is before 1970 (`Utc::now` expects the duration
/// since the Unix epoch), so a returned time is not negative; which time it
/// is depends on when it is called, and is not stated.
#[verifier::external_body]
pub(crate) fn now_millis() -> (res: i64)
    ensures
        res >= 0,
{
    chrono::Local::now().timestamp_millis()
}

} // verus!
