//! Dates and date-times as day numbers of the proleptic Gregorian calendar,
//! with January 1 of year 1 being day 1, and the repeat periods of events.

use chrono::Datelike;
use crate::error::{GreaseError, GreaseResult, ValidationError};
use vstd::prelude::*;

verus! {

/// Seconds in one day.
pub const SECONDS_PER_DAY: u32 = 86400;

/// Every day number within this distance of zero denotes a date that chrono
/// can represent (its range runs from 262144 BCE to 262142 CE).
pub const DAY_LIMIT: i32 = 95_000_000;

/// The first year that chrono's `NaiveDate` represents.
pub const MIN_YEAR: i32 = -262143;

/// The last year that chrono's `NaiveDate` represents.
pub const MAX_YEAR: i32 = 262142;

/// The (year, month) of a day number, as chrono computes it.
pub uninterp spec fn civil_year_month(day: int) -> (int, int);

/// Whether a year is a leap year under the Gregorian rule.
pub open spec fn is_leap_year(year: int) -> bool {
    (year % 4 == 0 && year % 100 != 0) || year % 400 == 0
}

/// Number of days in a month of a year.
pub open spec fn month_length(year: int, month: int) -> int {
    if month == 2 {
        if is_leap_year(year) { 29 } else { 28 }
    } else if month == 4 || month == 6 || month == 9 || month == 11 {
        30
    } else {
        31
    }
}

/// The day numbers this library handles.
pub open spec fn day_in_range(day: int) -> bool {
    -DAY_LIMIT <= day <= DAY_LIMIT
}

/// A calendar date.
#[derive(Clone, Copy, Debug, PartialEq, Eq, Structural)]
pub struct Date {
    /// The day number, January 1 of year 1 being day 1.
    pub day: i32,
}

/// A date with a time of day, to the second.
#[derive(Clone, Copy, Debug, PartialEq, Eq, Structural)]
pub struct DateTime {
    pub date: Date,
    /// Seconds since midnight.
    pub seconds: u32,
}

proof fn lemma_day_seconds_fit(day: i32)
    ensures
        -0x10_0000_0000_0000 <= day * 86400 <= 0x10_0000_0000_0000,
{
    assert(-0x10_0000_0000_0000 <= day * 86400 <= 0x10_0000_0000_0000) by (nonlinear_arith)
        requires
            -0x8000_0000 <= day <= 0x7fff_ffff,
    ;
}

impl DateTime {
    /// The time of day lies within its day.
    pub open spec fn wf(self) -> bool {
        self.seconds < SECONDS_PER_DAY
    }

    /// Seconds since the start of day 0.
    pub open spec fn instant(self) -> int {
        self.date.day * SECONDS_PER_DAY + self.seconds
    }

    /// The same time of day, `n` days later.
    pub open spec fn shifted(self, n: int) -> DateTime {
        DateTime { date: Date { day: (self.date.day + n) as i32 }, seconds: self.seconds }
    }

    pub fn is_before(&self, other: &DateTime) -> (r: bool)
        requires
            self.wf(),
            other.wf(),
        ensures
            r == (self.instant() < other.instant()),
    {
        proof {
            lemma_day_seconds_fit(self.date.day);
            lemma_day_seconds_fit(other.date.day);
        }
        let a: i64 = self.date.day as i64 * 86400i64 + self.seconds as i64;
        let b: i64 = other.date.day as i64 * 86400i64 + other.seconds as i64;
        a < b
    }

    pub fn plus_days(&self, n: i32) -> (r: DateTime)
        requires
            self.wf(),
            i32::MIN <= self.date.day + n <= i32::MAX,
        ensures
            r == self.shifted(n as int),
            r.wf(),
    {
        DateTime { date: Date { day: self.date.day + n }, seconds: self.seconds }
    }
}

/// Relies on chrono's `NaiveDate::from_num_days_from_ce_opt`, read back
/// through `Datelike::year` and `Datelike::month`: the date of a day number
/// in range, whose month lies in 1..=12 and whose year lies in chrono's range.
#[verifier::external_body]
fn year_month_of_day(day: i32) -> (r: (i32, u32))
    requires
        day_in_range(day as int),
    ensures
        (r.0 as int, r.1 as int) == civil_year_month(day as int),
        1 <= r.1 <= 12,
        MIN_YEAR <= r.0 <= MAX_YEAR,
{
    let date = chrono::NaiveDate::from_num_days_from_ce_opt(day).expect("day in range");
    (date.year(), date.month())
}

/// Relies on chrono's `NaiveDate::from_ymd_opt`: February 29 exists exactly
/// in the leap years of its range.
#[verifier::external_body]
fn february_29_exists(year: i32) -> (r: bool)
    requires
        MIN_YEAR <= year <= MAX_YEAR,
    ensures
        r == is_leap_year(year as int),
{
    chrono::NaiveDate::from_ymd_opt(year, 2, 29).is_some()
}

/// Relies on chrono's `Weekday::num_days_from_sunday` of
/// `NaiveDate::from_num_days_from_ce_opt(day)`: day 1 (January 1 of year 1)
/// is a Monday, so the count is the day number modulo 7.
#[verifier::external_body]
pub(crate) fn days_since_sunday(day: i32) -> (r: u32)
    requires
        day_in_range(day as int),
    ensures
        r as int == (day as int) % 7,
{
    let date = chrono::NaiveDate::from_num_days_from_ce_opt(day).expect("day in range");
    date.weekday().num_days_from_sunday()
}

/// Number of days in the month that holds the given day.
pub fn days_in_month_of(day: i32) -> (r: i32)
    requires
        day_in_range(day as int),
    ensures
        r as int == month_length(civil_year_month(day as int).0, civil_year_month(day as int).1),
        28 <= r <= 31,
{
    let (year, month) = year_month_of_day(day);
    if month == 2 {
        if february_29_exists(year) { 29 } else { 28 }
    } else if month == 4 || month == 6 || month == 9 || month == 11 {
        30
    } else {
        31
    }
}

/// How often an event repeats.
#[derive(Clone, Copy, Debug, PartialEq, Eq, Structural)]
pub enum Period {
    Daily,
    Weekly,
    BiWeekly,
    Monthly,
    Yearly,
}

/// Days from an occurrence on `day` to the next one.
pub open spec fn step_days(period: Period, day: int) -> int {
    match period {
        Period::Daily => 1,
        Period::Weekly => 7,
        Period::BiWeekly => 14,
        Period::Yearly => 365,
        Period::Monthly => month_length(civil_year_month(day).0, civil_year_month(day).1),
    }
}

/// Day of the `k`-th occurrence, the first being `start`.
pub open spec fn occurrence_day(start: int, period: Period, k: nat) -> int
    decreases k,
{
    if k == 0 {
        start
    } else {
        let prev = occurrence_day(start, period, (k - 1) as nat);
        prev + step_days(period, prev)
    }
}

pub fn step_of(period: Period, day: i32) -> (r: i32)
    requires
        day_in_range(day as int),
    ensures
        r as int == step_days(period, day as int),
        1 <= r <= 365,
{
    match period {
        Period::Daily => 1,
        Period::Weekly => 7,
        Period::BiWeekly => 14,
        Period::Yearly => 365,
        Period::Monthly => days_in_month_of(day),
    }
}

/// The `k`-th occurrence of a call and release time repeated by `period`:
/// both move by the days from the first occurrence to the `k`-th.
pub open spec fn occurrence(
    call: DateTime,
    release: Option<DateTime>,
    period: Period,
    k: nat,
) -> (DateTime, Option<DateTime>) {
    let offset = occurrence_day(call.date.day as int, period, k) - call.date.day;
    (
        call.shifted(offset),
        match release {
            Some(t) => Some(t.shifted(offset)),
            None => None,
        },
    )
}

/// `times` lists the occurrences of `call` and `release` repeated by
/// `period`: the first always, then each one whose day is before `until`,
/// up to the first one that is not.
pub open spec fn is_expansion(
    times: Seq<(DateTime, Option<DateTime>)>,
    call: DateTime,
    release: Option<DateTime>,
    period: Period,
    until: Date,
) -> bool {
    &&& times.len() >= 1
    &&& forall|i: int| 0 <= i < times.len() ==> #[trigger] times[i] == occurrence(call, release, period, i as nat)
    &&& forall|i: int|
        1 <= i < times.len() ==> #[trigger] occurrence_day(call.date.day as int, period, i as nat)
            < until.day
    &&& occurrence_day(call.date.day as int, period, times.len() as nat) >= until.day
}

/// Each occurrence falls at least one day after the one before it.
pub proof fn lemma_occurrence_day_increases(start: int, period: Period, k: nat)
    ensures
        occurrence_day(start, period, k) + 1 <= occurrence_day(start, period, k + 1),
        occurrence_day(start, period, k) + 365 >= occurrence_day(start, period, k + 1),
{
}

/// Occurrence days only grow with their index.
pub proof fn lemma_occurrence_day_monotonic(start: int, period: Period, j: nat, k: nat)
    requires
        j < k,
    ensures
        occurrence_day(start, period, j) < occurrence_day(start, period, k),
    decreases k - j,
{
    lemma_occurrence_day_increases(start, period, (k - 1) as nat);
    if j < k - 1 {
        lemma_occurrence_day_monotonic(start, period, j, (k - 1) as nat);
    }
}

/// Stepping monthly from a day in February moves 29 days in a leap year and
/// 28 days in any other year.
pub proof fn lemma_monthly_step_in_february(day: int)
    requires
        civil_year_month(day).1 == 2,
    ensures
        step_days(Period::Monthly, day) == if is_leap_year(civil_year_month(day).0) {
            29int
        } else {
            28int
        },
{
}

/// Whether two strings hold the same characters.
pub(crate) fn same_text(a: &str, b: &str) -> (r: bool)
    ensures
        r == (a@ == b@),
{
    a.to_owned() == b.to_owned()
}

/// What a repeat setting names: `None` for an unknown setting, `Some(None)`
/// for no repetition, `Some(Some(p))` for repetition by `p`.
pub open spec fn repeat_setting(s: Seq<char>) -> Option<Option<Period>> {
    if s == "no"@ {
        Some(None)
    } else if s == "daily"@ {
        Some(Some(Period::Daily))
    } else if s == "weekly"@ {
        Some(Some(Period::Weekly))
    } else if s == "biweekly"@ {
        Some(Some(Period::BiWeekly))
    } else if s == "monthly"@ {
        Some(Some(Period::Monthly))
    } else if s == "yearly"@ {
        Some(Some(Period::Yearly))
    } else {
        None
    }
}

impl Period {
    /// Reads a repeat setting: "no" for none, or one of "daily", "weekly",
    /// "biweekly", "monthly" and "yearly"; any other value is refused.
    pub fn parse(period: &str) -> (r: GreaseResult<Option<Period>>)
        ensures
            repeat_setting(period@) matches Some(p) ==> r == Ok::<Option<Period>, GreaseError>(p),
            repeat_setting(period@) is None ==> (r matches Err(
                GreaseError::BadRequest(ValidationError::UnknownRepeat(v)),
            ) && v@ == period@),
    {
        if same_text(period, "no") {
            Ok(None)
        } else if same_text(period, "daily") {
            Ok(Some(Period::Daily))
        } else if same_text(period, "weekly") {
            Ok(Some(Period::Weekly))
        } else if same_text(period, "biweekly") {
            Ok(Some(Period::BiWeekly))
        } else if same_text(period, "monthly") {
            Ok(Some(Period::Monthly))
        } else if same_text(period, "yearly") {
            Ok(Some(Period::Yearly))
        } else {
            Err(GreaseError::BadRequest(ValidationError::UnknownRepeat(period.to_owned())))
        }
    }
}

} // verus!
