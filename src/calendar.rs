//! The calendar day in New York, which bounds the daily question quota.

use vstd::prelude::*;
use chrono::{Datelike, TimeZone};
use chrono_tz::America::New_York;

verus! {

/// The calendar date (year, month, day) in New York at a UTC instant, in
/// seconds since the epoch.
pub uninterp spec fn ny_date_of(utc: int) -> (int, int, int);

/// The UTC instant, in seconds since the epoch, of a wall-clock time in New
/// York; `None` where that time does not exist or is ambiguous there.
pub uninterp spec fn ny_instant_of(year: int, month: int, day: int, hour: int, minute: int, second: int) -> Option<int>;

/// Relies on chrono's DateTime::from_timestamp and chrono_tz's
/// America::New_York: the date on New York's calendar at that instant.
#[verifier::external_body]
fn new_york_date(utc: i64) -> (r: Option<(i32, u32, u32)>)
    ensures
        r matches Some(d) ==> ny_date_of(utc as int) == (d.0 as int, d.1 as int, d.2 as int),
{
    let local = chrono::DateTime::from_timestamp(utc, 0)?.with_timezone(&New_York).date_naive();
    Some((local.year(), local.month(), local.day()))
}

/// Relies on chrono's NaiveDate::from_ymd_opt and NaiveDate::and_hms_opt,
/// and chrono_tz's America::New_York (from_local_datetime, single): the
/// instant of that wall-clock time in New York, where it is one instant.
#[verifier::external_body]
fn new_york_instant(year: i32, month: u32, day: u32, hour: u32, minute: u32, second: u32) -> (r: Option<i64>)
    ensures
        r matches Some(t) ==> ny_instant_of(
            year as int,
            month as int,
            day as int,
            hour as int,
            minute as int,
            second as int,
        ) == Some(t as int),
{
    let time = chrono::NaiveDate::from_ymd_opt(year, month, day)?.and_hms_opt(hour, minute, second)?;
    Some(New_York.from_local_datetime(&time).single()?.timestamp())
}

/// The first and the last second (00:00:00 and 23:59:59) of the New York
/// calendar day that holds `now`, as UTC instants.
pub fn eastern_day_window(now: i64) -> (r: Option<(i64, i64)>)
    ensures
        r matches Some(w) ==> {
            let d = ny_date_of(now as int);
            &&& ny_instant_of(d.0, d.1, d.2, 0, 0, 0) == Some(w.0 as int)
            &&& ny_instant_of(d.0, d.1, d.2, 23, 59, 59) == Some(w.1 as int)
        },
{
    let (year, month, day) = match new_york_date(now) {
        Some(d) => d,
        None => return None,
    };
    let start = match new_york_instant(year, month, day, 0, 0, 0) {
        Some(t) => t,
        None => return None,
    };
    let end = match new_york_instant(year, month, day, 23, 59, 59) {
        Some(t) => t,
        None => return None,
    };
    Some((start, end))
}

} // verus!
