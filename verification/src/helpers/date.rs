//! The school calendar: academic year and semester of a date, and special event days.
use vstd::prelude::*;
use chrono::Datelike;
use crate::ids::{now_utc, Date, Timestamp};

verus! {

/// The academic year that a date falls in: it starts in April, so January to March belong
/// to the year before.
pub open spec fn academic_year(d: Date) -> i64 {
    if d.month <= 3 {
        (d.year - 1) as i64
    } else {
        d.year as i64
    }
}

/// The semester that a date falls in: April to September are the first, the rest of the
/// year the second.
pub open spec fn semester(d: Date) -> i64 {
    if 4 <= d.month && d.month < 10 {
        1
    } else {
        2
    }
}

/// The days of the Jaturamitr event: 14, 15 and 22 November 2025.
pub open spec fn is_jaturamitr(d: Date) -> bool {
    ||| d == Date { year: 2025, month: 11, day: 14 }
    ||| d == Date { year: 2025, month: 11, day: 15 }
    ||| d == Date { year: 2025, month: 11, day: 22 }
}

/// The school calendar: an academic year runs from April to March and is named by the
/// calendar year it starts in, so a date from April on belongs to the academic year of its
/// own calendar year, a date in January to March to that of the year before, and April to
/// March of the next calendar year form one academic year; its first semester is April to
/// September and its second October to March.
pub proof fn lemma_school_calendar(d: Date, e: Date)
    requires
        1 <= d.month <= 12,
        1 <= e.month <= 12,
    ensures
        d.month >= 4 ==> academic_year(d) == d.year,
        d.month <= 3 ==> academic_year(d) == d.year - 1,
        d.month >= 4 && e.month <= 3 && e.year == d.year + 1 ==> academic_year(e) == academic_year(d),
        semester(d) == 1 <==> 4 <= d.month <= 9,
        semester(d) == 2 <==> (d.month >= 10 || d.month <= 3),
{
}

/// The calendar date (proleptic Gregorian) of the instant `secs` seconds after
/// 1970-01-01T00:00:00Z, as `chrono::DateTime::from_timestamp` and `date_naive` compute it;
/// none outside the dates chrono holds.
pub uninterp spec fn calendar_date(secs: i64) -> Option<Date>;

/// Calls `chrono::DateTime::from_timestamp(secs, 0)` and returns the year, month and day of
/// its `date_naive()`. `from_timestamp` returns none for instants outside the dates chrono
/// can hold, and this returns none then. The date depends on `secs` alone, so the contract
/// names it `calendar_date(secs)`; it also claims the ranges of month (1 to 12) and day
/// (1 to 31) that chrono's `Datelike` documents.
#[verifier::external_body]
fn utc_date(secs: i64) -> (r: Option<Date>)
    ensures
        r == calendar_date(secs),
        r matches Some(d) ==> 1 <= d.month <= 12 && 1 <= d.day <= 31,
{
    match chrono::DateTime::from_timestamp(secs, 0) {
        Some(t) => {
            let d = t.date_naive();
            Some(Date { year: d.year(), month: d.month(), day: d.day() })
        },
        None => None,
    }
}

/// The whole seconds from 1970-01-01T00:00:00Z to an instant, rounded down.
pub open spec fn floor_seconds(t: Timestamp) -> int {
    if !t.before_epoch {
        t.secs as int
    } else if t.nanos == 0 {
        -(t.secs as int)
    } else {
        -(t.secs as int) - 1
    }
}

/// Whether an integer fits in an `i64`.
pub open spec fn fits_i64(x: int) -> bool {
    i64::MIN <= x <= i64::MAX
}

/// The date at an instant on the clock of a place `offset_seconds` east of UTC: the UTC
/// date of the instant moved by that offset. None when the seconds do not fit in an `i64`
/// or chrono holds no such date.
pub open spec fn date_at(t: Timestamp, offset_seconds: i32) -> Option<Date> {
    if fits_i64(floor_seconds(t)) && fits_i64(floor_seconds(t) + offset_seconds) {
        calendar_date((floor_seconds(t) + offset_seconds) as i64)
    } else {
        None
    }
}

/// The date at an instant on the clock of a place `offset_seconds` east of UTC.
pub fn date_at_offset(t: Timestamp, offset_seconds: i32) -> (r: Option<Date>)
    ensures
        r == date_at(t, offset_seconds),
        r matches Some(d) ==> 1 <= d.month <= 12 && 1 <= d.day <= 31,
{
    let magnitude = t.secs as i128;
    let floor: i128 = if !t.before_epoch {
        magnitude
    } else if t.nanos == 0 {
        0 - magnitude
    } else {
        0 - magnitude - 1
    };
    if floor < i64::MIN as i128 || floor > i64::MAX as i128 {
        return None;
    }
    let shifted: i128 = floor + offset_seconds as i128;
    if shifted < i64::MIN as i128 || shifted > i64::MAX as i128 {
        return None;
    }
    utc_date(shifted as i64)
}

/// The offset of Bangkok time (UTC+7) from UTC, in seconds.
pub const BANGKOK_UTC_OFFSET_SECONDS: i32 = 7 * 3600;

/// The academic year of the given date, or of today's date in UTC; none when no date is
/// given and the clock's reading has no date.
pub fn get_current_academic_year(date: Option<Date>) -> (r: Option<i64>)
    ensures
        date matches Some(d) ==> r == Some(academic_year(d)),
        date is None ==> (r matches Some(y) ==> exists|t: Timestamp|
            #[trigger] date_at(t, 0) matches Some(d) && y == academic_year(d)),
{
    let d = match date {
        Some(d) => d,
        None => match date_at_offset(now_utc(), 0) {
            Some(d) => d,
            None => return None,
        },
    };
    let r = if d.month <= 3 {
        d.year as i64 - 1
    } else {
        d.year as i64
    };
    assert(r == academic_year(d));
    Some(r)
}

/// The semester of the given date, or of today's date in UTC; none when no date is given
/// and the clock's reading has no date.
pub fn get_current_semester(date: Option<Date>) -> (r: Option<i64>)
    ensures
        date matches Some(d) ==> r == Some(semester(d)),
        date is None ==> (r matches Some(s) ==> exists|t: Timestamp|
            #[trigger] date_at(t, 0) matches Some(d) && s == semester(d)),
{
    let d = match date {
        Some(d) => d,
        None => match date_at_offset(now_utc(), 0) {
            Some(d) => d,
            None => return None,
        },
    };
    if 4 <= d.month && d.month < 10 {
        Some(1)
    } else {
        Some(2)
    }
}

/// Today's date in Bangkok (UTC+7); none when the clock's reading has no date.
pub fn get_current_date() -> (r: Option<Date>)
    ensures
        r matches Some(d) ==> exists|t: Timestamp| #[trigger] date_at(t, BANGKOK_UTC_OFFSET_SECONDS) == Some(d),
        r matches Some(d) ==> 1 <= d.month <= 12 && 1 <= d.day <= 31,
{
    date_at_offset(now_utc(), BANGKOK_UTC_OFFSET_SECONDS)
}

/// Whether the date is a day of the Jaturamitr event.
pub fn is_jaturamitr_date(d: Date) -> (r: bool)
    ensures
        r == is_jaturamitr(d),
{
    d.year == 2025 && d.month == 11 && (d.day == 14 || d.day == 15 || d.day == 22)
}

/// The Jaturamitr event lasts exactly three days, 14, 15 and 22 November 2025: a date is an
/// event day when and only when it has one of those three days of November 2025, every event
/// day falls in the second semester of academic year 2025, and the set of event days has
/// exactly three members.
pub proof fn lemma_jaturamitr_days()
    ensures
        forall|d: Date| #[trigger] is_jaturamitr(d) <==> (d.year == 2025 && d.month == 11
            && (d.day == 14 || d.day == 15 || d.day == 22)),
        forall|d: Date| #[trigger] is_jaturamitr(d) ==> academic_year(d) == 2025 && semester(d) == 2,
        Set::new(|d: Date| is_jaturamitr(d)).len() == 3,
{
    let a = Date { year: 2025, month: 11, day: 14 };
    let b = Date { year: 2025, month: 11, day: 15 };
    let c = Date { year: 2025, month: 11, day: 22 };
    let days = Set::new(|d: Date| is_jaturamitr(d));
    assert(days =~= Set::empty().insert(a).insert(b).insert(c));
    assert(Set::<Date>::empty().insert(a).len() == 1);
    assert(Set::<Date>::empty().insert(a).insert(b).len() == 2);
    assert(Set::<Date>::empty().insert(a).insert(b).insert(c).len() == 3);
}

/// Whether today, in Bangkok, is a day of the Jaturamitr event; none when the clock's
/// reading has no date.
pub fn is_today_jaturamitr() -> (r: Option<bool>)
    ensures
        r matches Some(b) ==> exists|t: Timestamp| #[trigger] date_at(t, BANGKOK_UTC_OFFSET_SECONDS) matches Some(d)
            && b == is_jaturamitr(d),
{
    match get_current_date() {
        Some(today) => Some(is_jaturamitr_date(today)),
        None => None,
    }
}

} // verus!
