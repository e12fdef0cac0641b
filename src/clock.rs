//! Wall-clock and identifier sources. Their results depend on the moment of
//! the call, so nothing is promised of them; the logic that consumes them takes
//! the values as arguments.

use vstd::prelude::*;

verus! {

/// Clock readings lie below this bound: it is past the last year that the
/// calendar library represents.
pub const CLOCK_LIMIT: i64 = 9_000_000_000_000;

/// A clock reading as the clock source gives it.
pub open spec fn valid_now(now: i64) -> bool {
    0 <= now < CLOCK_LIMIT
}

/// Relies on `chrono::Utc::now` and `DateTime::timestamp`: the current UTC time
/// as whole seconds since the Unix epoch. `Utc::now` reads the system time as a
/// duration since the epoch (it panics on a system clock set before 1970), so
/// the value is not negative, and a `DateTime` lies within the calendar's
/// years (at most year 262142).
#[verifier::external_body]
pub(crate) fn now_unix_seconds() -> (r: i64)
    ensures
        valid_now(r),
{
    chrono::Utc::now().timestamp()
}

/// Relies on `uuid::Uuid::new_v4` and the `Display` impl of `Uuid`, which writes
/// the hyphenated form: 36 characters.
#[verifier::external_body]
pub(crate) fn new_operation_id() -> (r: String)
    ensures
        r@.len() == 36,
{
    uuid::Uuid::new_v4().to_string()
}

} // verus!
