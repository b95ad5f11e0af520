//! Date ranges taken from the wall clock: the bounds of the current local
//! day, and a range of whole days ahead of now.  Only the two readings of
//! the clock are trusted; the range arithmetic is checked.

use vstd::prelude::*;
use chrono::TimeZone;
use crate::errors::EventKitError;

verus! {

/// Relies on chrono's `Local::now`: the current time, in seconds since the
/// Unix epoch.  The result depends on the clock, so nothing is promised
/// of it.
#[verifier::external_body]
fn now_timestamp() -> i64 {
    chrono::Local::now().timestamp()
}

/// Relies on chrono's `Local` time zone: the first and last second of the
/// current local day, in seconds since the Unix epoch, or `None` when the
/// time zone has no earliest instant for one of the two wall times.
#[verifier::external_body]
fn local_day_bounds() -> Option<(i64, i64)> {
    let today = chrono::Local::now().date_naive();
    let first = chrono::Local.from_local_datetime(&today.and_hms_opt(0, 0, 0)?).earliest()?;
    let last = chrono::Local.from_local_datetime(&today.and_hms_opt(23, 59, 59)?).earliest()?;
    Some((first.timestamp(), last.timestamp()))
}

/// The bounds of the current local day, for fetching today's events.  The
/// rare day whose bounds the time zone cannot place fails as a fetch
/// failure.
pub fn today_range() -> (r: Result<(i64, i64), EventKitError>)
    ensures
        r matches Err(e) ==> (e matches EventKitError::FetchFailed(m) && m@
            == "could not resolve the local day"@),
{
    match local_day_bounds() {
        Some(bounds) => Ok(bounds),
        None => Err(EventKitError::FetchFailed("could not resolve the local day".to_owned())),
    }
}

/// The range from a given moment to a number of whole days later.  A range
/// that cannot be represented is an invalid date range.
pub fn upcoming_range(now: i64, days: i64) -> (r: Result<(i64, i64), EventKitError>)
    ensures
        (i64::MIN <= now + days * 86400 <= i64::MAX) <==> r is Ok,
        r matches Ok(p) ==> p.0 == now && p.1 == now + days * 86400,
        r matches Err(e) ==> e == EventKitError::InvalidDateRange,
{
    let total: i128 = (now as i128) + (days as i128) * 86400;
    if total < i64::MIN as i128 || total > i64::MAX as i128 {
        Err(EventKitError::InvalidDateRange)
    } else {
        Ok((now, total as i64))
    }
}

/// The end of a new event: the explicit end when one was given, the next
/// day for an all-day event, else the start plus the duration in minutes.
/// An end that cannot be represented is an invalid date range.
pub fn event_end(start: i64, end: Option<i64>, duration_mins: i64, all_day: bool) -> (r: Result<
    i64,
    EventKitError,
>)
    ensures
        (match end {
            Some(e) => r == Ok::<i64, EventKitError>(e),
            None => {
                let target = if all_day {
                    start + 86400
                } else {
                    start + duration_mins * 60
                };
                &&& ((i64::MIN <= target <= i64::MAX) <==> r is Ok)
                &&& (r matches Ok(v) ==> v == target)
                &&& (r matches Err(e2) ==> e2 == EventKitError::InvalidDateRange)
            },
        }),
{
    match end {
        Some(e) => Ok(e),
        None => {
            let delta: i128 = if all_day {
                86400
            } else {
                (duration_mins as i128) * 60
            };
            let total: i128 = (start as i128) + delta;
            if total < i64::MIN as i128 || total > i64::MAX as i128 {
                Err(EventKitError::InvalidDateRange)
            } else {
                Ok(total as i64)
            }
        },
    }
}

/// The range from now to a number of whole days ahead, for fetching
/// upcoming events.
pub fn upcoming_range_from_now(days: i64) -> (r: Result<(i64, i64), EventKitError>)
    ensures
        r matches Ok(p) ==> p.1 == p.0 + days * 86400,
        r matches Err(e) ==> e == EventKitError::InvalidDateRange,
{
    let now = now_timestamp();
    upcoming_range(now, days)
}

} // verus!
