//! Calendar steps on timestamps, done by `chrono`: a day, a week, or the
//! same day of the next month.
use vstd::prelude::*;
use chrono::{Datelike, Timelike};
use crate::models::Timestamp;

verus! {

/// Gregorian leap years.
pub open spec fn leap_year(y: int) -> bool {
    y % 4 == 0 && (y % 100 != 0 || y % 400 == 0)
}

/// The number of days in a month of a year.
pub open spec fn days_in_month(y: int, m: int) -> int {
    if m == 2 {
        if leap_year(y) {
            29
        } else {
            28
        }
    } else if m == 4 || m == 6 || m == 9 || m == 11 {
        30
    } else {
        31
    }
}

/// A timestamp of a real day, within the years `chrono` represents
/// (-262143 to 262142), outside a leap second.
pub open spec fn valid_timestamp(t: Timestamp) -> bool {
    &&& -262_143 <= t.year <= 262_142
    &&& 1 <= t.month <= 12
    &&& 1 <= t.day <= days_in_month(t.year as int, t.month as int)
    &&& t.hour < 24
    &&& t.minute < 60
    &&& t.second < 60
    &&& t.millis < 1000
}

/// Whether a month has a day of this number.
pub open spec fn day_exists(y: int, m: int, d: int) -> bool {
    1 <= m <= 12 && 1 <= d <= days_in_month(y, m)
}

/// `t` in another year.
pub open spec fn set_year(t: Timestamp, year: i32) -> Timestamp {
    Timestamp { year, ..t }
}

/// `t` in another month.
pub open spec fn set_month(t: Timestamp, month: u32) -> Timestamp {
    Timestamp { month, ..t }
}

/// The timestamp `days` whole days after `t`, at the same time of day.
pub uninterp spec fn days_after(t: Timestamp, days: int) -> Timestamp;

/// Calls `NaiveDateTime + TimeDelta::days(days)`: the same time of day, a
/// valid timestamp again.
#[verifier::external_body]
pub(crate) fn add_days(t: Timestamp, days: i64) -> (r: Timestamp)
    requires
        valid_timestamp(t),
        t.year < 260_000,
        0 <= days <= 31,
    ensures
        r == days_after(t, days as int),
        valid_timestamp(r),
        r.hour == t.hour && r.minute == t.minute && r.second == t.second && r.millis == t.millis,
{
    let d = chrono::NaiveDate::from_ymd_opt(t.year, t.month, t.day).unwrap().and_hms_milli_opt(
        t.hour, t.minute, t.second, t.millis).unwrap() + chrono::TimeDelta::days(days);
    Timestamp { year: d.year(), month: d.month(), day: d.day(), hour: d.hour(), minute: d.minute(),
        second: d.second(), millis: d.and_utc().timestamp_subsec_millis() }
}

/// Calls `Datelike::with_year`: the same day of the same month in another
/// year, when that day exists there.
#[verifier::external_body]
pub(crate) fn with_year(t: Timestamp, year: i32) -> (r: Option<Timestamp>)
    requires
        valid_timestamp(t),
        -262_143 <= year <= 262_142,
    ensures
        r is Some <==> day_exists(year as int, t.month as int, t.day as int),
        r matches Some(u) ==> u == set_year(t, year),
{
    let d = chrono::NaiveDate::from_ymd_opt(t.year, t.month, t.day).unwrap().and_hms_milli_opt(
        t.hour, t.minute, t.second, t.millis).unwrap();
    d.with_year(year).map(|d| Timestamp { year: d.year(), month: d.month(), day: d.day(),
        hour: d.hour(), minute: d.minute(), second: d.second(),
        millis: d.and_utc().timestamp_subsec_millis() })
}

/// Calls `Datelike::with_month`: the same day in another month of the same
/// year, when that day exists there.
#[verifier::external_body]
pub(crate) fn with_month(t: Timestamp, month: u32) -> (r: Option<Timestamp>)
    requires
        valid_timestamp(t),
    ensures
        r is Some <==> day_exists(t.year as int, month as int, t.day as int),
        r matches Some(u) ==> u == set_month(t, month),
{
    let d = chrono::NaiveDate::from_ymd_opt(t.year, t.month, t.day).unwrap().and_hms_milli_opt(
        t.hour, t.minute, t.second, t.millis).unwrap();
    d.with_month(month).map(|d| Timestamp { year: d.year(), month: d.month(), day: d.day(),
        hour: d.hour(), minute: d.minute(), second: d.second(),
        millis: d.and_utc().timestamp_subsec_millis() })
}

// ── Instants ──────────────────────────────────────────────────────────────

/// The days from 1970-01-01 to a day of the proleptic Gregorian calendar.
pub open spec fn epoch_days(y: int, m: int, d: int) -> int {
    let yy = if m <= 2 {
        y - 1
    } else {
        y
    };
    let era = yy / 400;
    let yoe = yy - era * 400;
    let mp = if m > 2 {
        m - 3
    } else {
        m + 9
    };
    let doy = (153 * mp + 2) / 5 + d - 1;
    let doe = yoe * 365 + yoe / 4 - yoe / 100 + doy;
    era * 146097 + doe - 719468
}

/// The milliseconds from 1970-01-01T00:00:00Z to `t`, read in UTC.
pub open spec fn epoch_millis(t: Timestamp) -> int {
    epoch_days(t.year as int, t.month as int, t.day as int) * 86_400_000 + t.hour * 3_600_000
        + t.minute * 60_000 + t.second * 1000 + t.millis
}

/// The first instant `chrono` represents in whole milliseconds.
pub open spec fn first_instant() -> Timestamp {
    Timestamp { year: -262_143i32, month: 1, day: 1, hour: 0, minute: 0, second: 0, millis: 0 }
}

/// The last instant `chrono` represents in whole milliseconds.
pub open spec fn last_instant() -> Timestamp {
    Timestamp { year: 262_142, month: 12, day: 31, hour: 23, minute: 59, second: 59, millis: 999 }
}

/// Whether an instant, in milliseconds from the epoch, is one `chrono`
/// represents.
pub open spec fn in_chrono_range(ms: int) -> bool {
    epoch_millis(first_instant()) <= ms <= epoch_millis(last_instant())
}

/// Every instant the library holds lies well inside an `i64` of
/// milliseconds.
pub proof fn lemma_epoch_millis_bounded(t: Timestamp)
    requires
        valid_timestamp(t),
    ensures
        -0x80_0000_0000_0000 < epoch_millis(t) < 0x80_0000_0000_0000,
{
    let y = t.year as int;
    let m = t.month as int;
    let yy = if m <= 2 {
        y - 1
    } else {
        y
    };
    assert(-656 <= yy / 400 <= 656) by (nonlinear_arith)
        requires
            -262_144 <= yy <= 262_142,
    ;
    let era = yy / 400;
    assert(0 <= yy - era * 400 < 400) by (nonlinear_arith)
        requires
            era == yy / 400,
    ;
    let mp = if m > 2 {
        m - 3
    } else {
        m + 9
    };
    assert(0 <= (153 * mp + 2) / 5 <= 337) by (nonlinear_arith)
        requires
            0 <= mp <= 11,
    ;
    let yoe = yy - era * 400;
    assert(0 <= yoe * 365 + yoe / 4 - yoe / 100 <= 146_000) by (nonlinear_arith)
        requires
            0 <= yoe < 400,
    ;
    let doy = (153 * mp + 2) / 5 + t.day - 1;
    let days = epoch_days(y, m, t.day as int);
    assert(days == era * 146097 + (yoe * 365 + yoe / 4 - yoe / 100 + doy) - 719468);
    assert(-100_000_000 < days < 100_000_000);
    assert(-8_640_000_000_000_000 < days * 86_400_000 < 8_640_000_000_000_000) by (nonlinear_arith)
        requires
            -100_000_000 < days < 100_000_000,
    ;
}

/// The instant a given RFC 3339 text names, read in UTC.
pub uninterp spec fn rfc3339_utc(s: Seq<char>) -> Option<Timestamp>;

/// Calls `DateTime::parse_from_rfc3339`, read in UTC. The text has a
/// four-digit year and an offset under a day, so the instant lies in the
/// years -1 to 10000; a leap second (`:60`) shows as 1000 milliseconds and
/// more.
#[verifier::external_body]
pub(crate) fn parse_rfc3339(s: &str) -> (r: Option<Timestamp>)
    ensures
        r == rfc3339_utc(s@),
        r matches Some(t) ==> -1 <= t.year <= 10_000 && day_exists(t.year as int, t.month as int, t.day as int)
            && t.hour < 24 && t.minute < 60 && t.second < 60 && t.millis < 2000,
{
    match chrono::DateTime::parse_from_rfc3339(s) {
        Ok(d) => {
            let u = d.naive_utc();
            Some(Timestamp { year: u.year(), month: u.month(), day: u.day(), hour: u.hour(),
                minute: u.minute(), second: u.second(), millis: u.and_utc().timestamp_subsec_millis() })
        },
        Err(_) => None,
    }
}

/// Calls `NaiveDateTime::checked_add_signed(TimeDelta::milliseconds(ms))`:
/// the instant `ms` milliseconds on, when `chrono` represents it.
#[verifier::external_body]
pub(crate) fn add_millis(t: Timestamp, ms: i64) -> (r: Option<Timestamp>)
    requires
        valid_timestamp(t),
        ms > i64::MIN,
    ensures
        r is Some <==> in_chrono_range(epoch_millis(t) + ms),
        r matches Some(u) ==> valid_timestamp(u) && epoch_millis(u) == epoch_millis(t) + ms,
{
    let d = chrono::NaiveDate::from_ymd_opt(t.year, t.month, t.day).unwrap().and_hms_milli_opt(
        t.hour, t.minute, t.second, t.millis).unwrap();
    match d.checked_add_signed(chrono::TimeDelta::milliseconds(ms)) {
        Some(d) => Some(Timestamp { year: d.year(), month: d.month(), day: d.day(), hour: d.hour(),
            minute: d.minute(), second: d.second(), millis: d.and_utc().timestamp_subsec_millis() }),
        None => None,
    }
}

/// Calls `(b - a).num_milliseconds()` on two `NaiveDateTime`s: how far `b`
/// lies after `a`.
#[verifier::external_body]
pub(crate) fn millis_between(a: Timestamp, b: Timestamp) -> (r: i64)
    requires
        valid_timestamp(a),
        valid_timestamp(b),
    ensures
        r == epoch_millis(b) - epoch_millis(a),
{
    let da = chrono::NaiveDate::from_ymd_opt(a.year, a.month, a.day).unwrap().and_hms_milli_opt(
        a.hour, a.minute, a.second, a.millis).unwrap();
    let db = chrono::NaiveDate::from_ymd_opt(b.year, b.month, b.day).unwrap().and_hms_milli_opt(
        b.hour, b.minute, b.second, b.millis).unwrap();
    (db - da).num_milliseconds()
}

/// The next period of a retention report: a month (the same day of the
/// next month, or 30 days on when that day does not exist), a week, or a
/// day for any other frequency.
pub open spec fn next_period(t: Timestamp, frequency: Seq<char>) -> Timestamp {
    if frequency == "month"@ {
        let (y, m) = if t.month == 12 {
            (t.year + 1, 1)
        } else {
            (t.year as int, t.month + 1)
        };
        if t.day <= days_in_month(y, m) {
            set_month(set_year(t, y as i32), m as u32)
        } else {
            days_after(t, 30)
        }
    } else if frequency == "week"@ {
        days_after(t, 7)
    } else {
        days_after(t, 1)
    }
}

pub fn advance_period(t: Timestamp, frequency: &str) -> (r: Timestamp)
    requires
        valid_timestamp(t),
        t.year < 260_000,
    ensures
        r == next_period(t, frequency@),
{
    if crate::text::str_eq(frequency, "month") {
        let (y, m): (i32, u32) = if t.month == 12 {
            (t.year + 1, 1)
        } else {
            (t.year, t.month + 1)
        };
        let moved = match with_year(t, y) {
            Some(u) => with_month(u, m),
            None => None,
        };
        proof {
            if t.month == 12 {
                assert(days_in_month(y as int, t.month as int) == 31);
            }
        }
        match moved {
            Some(u) => u,
            None => add_days(t, 30),
        }
    } else if crate::text::str_eq(frequency, "week") {
        add_days(t, 7)
    } else {
        add_days(t, 1)
    }
}

} // verus!
