//! The wall clock.

use vstd::prelude::*;

verus! {

/// Reads the current time with `chrono::Local::now` and gives it as
/// milliseconds since the Unix epoch. Nothing is claimed of the value: every
/// caller holds for whatever the clock says.
#[verifier::external_body]
pub(crate) fn now_millis() -> (now: i64) {
    chrono::Local::now().timestamp_millis()
}

/// Milliseconds from `then` to `now`, brought into the range of `i64`.
pub open spec fn elapsed(now: i64, then: i64) -> i64 {
    if now - then > i64::MAX {
        i64::MAX
    } else if now - then < i64::MIN {
        i64::MIN
    } else {
        (now - then) as i64
    }
}

/// Whole seconds since the epoch of a time in milliseconds, rounded down.
pub open spec fn seconds_of(millis: i64) -> i64 {
    (millis / 1000) as i64
}

/// Milliseconds from `then` to `now`, brought into the range of `i64`.
pub fn elapsed_millis(now: i64, then: i64) -> (age: i64)
    ensures
        age == elapsed(now, then),
{
    let difference: i128 = now as i128 - then as i128;
    if difference > i64::MAX as i128 {
        i64::MAX
    } else if difference < i64::MIN as i128 {
        i64::MIN
    } else {
        difference as i64
    }
}

/// Whole seconds since the epoch of a time in milliseconds, rounded down.
pub fn whole_seconds(millis: i64) -> (seconds: i64)
    ensures
        seconds == seconds_of(millis),
{
    if millis >= 0 {
        millis / 1000
    } else {
        let below: i64 = -(millis + 1);
        -(below / 1000) - 1
    }
}

} // verus!
