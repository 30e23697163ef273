use chrono::Datelike;
use grease::calendar::{days_in_month_of, step_of, Date, DateTime, Period};
use grease::error::{GreaseError, ValidationError};
use grease::event::Event;

fn day(y: i32, m: u32, d: u32) -> i32 {
    chrono::NaiveDate::from_ymd_opt(y, m, d).unwrap().num_days_from_ce()
}

fn at(y: i32, m: u32, d: u32, h: u32, min: u32) -> DateTime {
    DateTime { date: Date { day: day(y, m, d) }, seconds: h * 3600 + min * 60 }
}

#[test]
fn parse_known_settings() {
    assert_eq!(Period::parse("no"), Ok(None));
    assert_eq!(Period::parse("daily"), Ok(Some(Period::Daily)));
    assert_eq!(Period::parse("weekly"), Ok(Some(Period::Weekly)));
    assert_eq!(Period::parse("biweekly"), Ok(Some(Period::BiWeekly)));
    assert_eq!(Period::parse("monthly"), Ok(Some(Period::Monthly)));
    assert_eq!(Period::parse("yearly"), Ok(Some(Period::Yearly)));
}

#[test]
fn parse_unknown_setting() {
    assert_eq!(
        Period::parse("fortnightly"),
        Err(GreaseError::BadRequest(ValidationError::UnknownRepeat("fortnightly".to_owned())))
    );
    assert!(Period::parse("Daily").is_err());
    assert!(Period::parse("").is_err());
}

#[test]
fn month_lengths() {
    assert_eq!(days_in_month_of(day(2024, 2, 10)), 29);
    assert_eq!(days_in_month_of(day(2023, 2, 10)), 28);
    assert_eq!(days_in_month_of(day(2000, 2, 1)), 29);
    assert_eq!(days_in_month_of(day(1900, 2, 1)), 28);
    assert_eq!(days_in_month_of(day(2023, 4, 30)), 30);
    assert_eq!(days_in_month_of(day(2023, 12, 31)), 31);
    assert_eq!(days_in_month_of(day(2023, 1, 1)), 31);
}

#[test]
fn step_lengths() {
    let d = day(2023, 9, 15);
    assert_eq!(step_of(Period::Daily, d), 1);
    assert_eq!(step_of(Period::Weekly, d), 7);
    assert_eq!(step_of(Period::BiWeekly, d), 14);
    assert_eq!(step_of(Period::Yearly, d), 365);
    assert_eq!(step_of(Period::Monthly, d), 30);
}

#[test]
fn weekly_expansion_stops_before_until() {
    let call = at(2023, 9, 4, 18, 0);
    let release = at(2023, 9, 4, 20, 0);
    let until = Date { day: day(2023, 9, 25) };
    let times = Event::repeat_event_times(call, Some(release), Period::Weekly, until);
    assert_eq!(times.len(), 3);
    assert_eq!(times[0], (call, Some(release)));
    assert_eq!(times[1], (at(2023, 9, 11, 18, 0), Some(at(2023, 9, 11, 20, 0))));
    assert_eq!(times[2], (at(2023, 9, 18, 18, 0), Some(at(2023, 9, 18, 20, 0))));
}

#[test]
fn expansion_is_increasing_and_ends_at_last_date_before_until() {
    let call = at(2023, 1, 31, 9, 30);
    let until = Date { day: day(2023, 3, 15) };
    let times = Event::repeat_event_times(call, None, Period::Daily, until);
    assert_eq!(times.len(), 43);
    for pair in times.windows(2) {
        assert!(pair[0].0.date.day < pair[1].0.date.day);
        assert_eq!(pair[1].0.date.day, pair[0].0.date.day + 1);
    }
    assert_eq!(times.last().unwrap().0, at(2023, 3, 14, 9, 30));
    assert!(times.iter().all(|t| t.1.is_none()));
}

#[test]
fn expansion_with_until_on_next_occurrence_is_single() {
    let call = at(2023, 9, 4, 18, 0);
    let until = Date { day: day(2023, 9, 11) };
    let times = Event::repeat_event_times(call, None, Period::Weekly, until);
    assert_eq!(times, vec![(call, None)]);
}

#[test]
fn expansion_with_until_before_start_is_single() {
    let call = at(2023, 9, 4, 18, 0);
    let until = Date { day: day(2023, 8, 1) };
    let times = Event::repeat_event_times(call, None, Period::Daily, until);
    assert_eq!(times, vec![(call, None)]);
}

#[test]
fn monthly_step_over_leap_february() {
    let call = at(2024, 2, 10, 19, 0);
    let until = Date { day: day(2024, 4, 1) };
    let times = Event::repeat_event_times(call, None, Period::Monthly, until);
    assert_eq!(times.len(), 2);
    assert_eq!(times[1].0.date.day - times[0].0.date.day, 29);
    assert_eq!(times[1].0, at(2024, 3, 10, 19, 0));
}

#[test]
fn monthly_step_over_common_february() {
    let call = at(2023, 2, 10, 19, 0);
    let until = Date { day: day(2023, 4, 1) };
    let times = Event::repeat_event_times(call, None, Period::Monthly, until);
    assert_eq!(times.len(), 2);
    assert_eq!(times[1].0.date.day - times[0].0.date.day, 28);
    assert_eq!(times[1].0, at(2023, 3, 10, 19, 0));
}

#[test]
fn monthly_steps_follow_month_of_current_occurrence() {
    let call = at(2023, 1, 31, 12, 0);
    let until = Date { day: day(2023, 6, 1) };
    let times = Event::repeat_event_times(call, None, Period::Monthly, until);
    let steps: Vec<i32> = times.windows(2).map(|p| p[1].0.date.day - p[0].0.date.day).collect();
    // January has 31 days, then the occurrence on March 3 steps by March's 31.
    assert_eq!(steps, vec![31, 31, 30]);
    assert_eq!(times[1].0, at(2023, 3, 3, 12, 0));
}

#[test]
fn yearly_and_biweekly_steps() {
    let call = at(2023, 3, 1, 8, 0);
    let yearly = Event::repeat_event_times(call, None, Period::Yearly, Date { day: day(2025, 2, 1) });
    assert_eq!(yearly.len(), 2);
    assert_eq!(yearly[1].0, at(2024, 2, 29, 8, 0));
    let biweekly =
        Event::repeat_event_times(call, None, Period::BiWeekly, Date { day: day(2023, 4, 1) });
    assert_eq!(biweekly.len(), 3);
    assert_eq!(biweekly[2].0, at(2023, 3, 29, 8, 0));
}

#[test]
fn date_time_ordering() {
    let a = at(2023, 3, 1, 8, 0);
    let b = at(2023, 3, 1, 9, 0);
    let c = at(2023, 3, 2, 7, 0);
    assert!(a.is_before(&b));
    assert!(b.is_before(&c));
    assert!(!b.is_before(&a));
    assert!(!a.is_before(&a));
    assert_eq!(a.plus_days(1), at(2023, 3, 2, 8, 0));
}
