//! Points in time, in whole seconds since the Unix epoch.

use vstd::prelude::*;

verus! {

/// The present moment: `chrono::Utc::now`, read with
/// `chrono::DateTime::timestamp`.  Nothing is known of it beforehand.
/// On a machine whose clock stands before 1970 `chrono::Utc::now` stops
/// the program.
#[verifier::external_body]
pub(crate) fn now_seconds() -> i64 {
    chrono::Utc::now().timestamp()
}

/// The whole seconds in `age` milliseconds, rounded towards zero.
pub open spec fn whole_seconds(age: i64) -> int {
    if age >= 0 {
        age / 1000
    } else {
        -((-age) / 1000)
    }
}

/// The moment that lies `age` milliseconds before `now`, kept within the
/// range of `i64`.
pub open spec fn date_before(now: i64, age: i64) -> i64 {
    let at = now - whole_seconds(age);
    if at > i64::MAX {
        i64::MAX
    } else if at < i64::MIN {
        i64::MIN
    } else {
        at as i64
    }
}

/// The moment that lies `age` milliseconds before `now`.
pub fn date_at(now: i64, age: i64) -> (date: i64)
    ensures
        date == date_before(now, age),
{
    let ms: i128 = age as i128;
    let seconds: i128 = if ms >= 0 {
        ms / 1000
    } else {
        -((-ms) / 1000)
    };
    let at: i128 = now as i128 - seconds;
    if at > i64::MAX as i128 {
        i64::MAX
    } else if at < i64::MIN as i128 {
        i64::MIN
    } else {
        at as i64
    }
}

/// The moment at which an event of the given age, in milliseconds, took
/// place, counted back from the present as the machine's clock tells
/// it.
pub fn age_to_datetime(age: i64) -> (date: i64)
    ensures
        exists|now: i64| date == date_before(now, age),
{
    let now = now_seconds();
    date_at(now, age)
}

} // verus!
