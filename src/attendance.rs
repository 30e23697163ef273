//! Attendance records and absence requests, and whether a member went to an
//! event of some type in a given week.

use crate::calendar::{day_in_range, days_since_sunday, same_text, DateTime};
use crate::event::Event;
use vstd::prelude::*;

verus! {

/// A member's attendance at one event.
#[derive(Clone, Debug, PartialEq, Eq)]
pub struct Attendance {
    pub member: String,
    pub event: i32,
    pub should_attend: bool,
    pub did_attend: bool,
    pub confirmed: bool,
    pub minutes_late: i32,
}

/// Where an absence request stands.
#[derive(Clone, Copy, Debug, PartialEq, Eq, Structural)]
pub enum AbsenceRequestState {
    Pending,
    Approved,
    Denied,
}

/// A member's request to be excused from one event.
#[derive(Clone, Debug, PartialEq, Eq)]
pub struct AbsenceRequest {
    pub member: String,
    pub event: i32,
    pub time: DateTime,
    pub reason: String,
    pub state: AbsenceRequestState,
}

/// Request `r` is an approved request of `member` for event `id`.
pub open spec fn excuses(r: AbsenceRequest, member: Seq<char>, id: i32) -> bool {
    r.event == id && r.member@ == member && r.state == AbsenceRequestState::Approved
}

/// Some request of `member` excuses them from event `id`.
pub open spec fn approved_absence(requests: Seq<AbsenceRequest>, member: Seq<char>, id: i32) -> bool {
    exists|i: int| 0 <= i < requests.len() && excuses(#[trigger] requests[i], member, id)
}

/// Whether some request of `member` excuses them from event `id`; requests
/// of other members do not count.
pub fn has_approved_absence(requests: &Vec<AbsenceRequest>, member: &str, id: i32) -> (r: bool)
    ensures
        r == approved_absence(requests@, member@, id),
{
    let mut i: usize = 0;
    while i < requests.len()
        invariant
            i <= requests@.len(),
            forall|j: int| 0 <= j < i ==> !excuses(#[trigger] requests@[j], member@, id),
        decreases requests@.len() - i,
    {
        let request = &requests[i];
        if request.event == id && request.state == AbsenceRequestState::Approved && same_text(
            request.member.as_str(),
            member,
        ) {
            return true;
        }
        i = i + 1;
    }
    false
}

/// The most recent Sunday at or before `t`, at the same time of day.
pub open spec fn week_start(t: DateTime) -> DateTime {
    t.shifted(-(t.date.day % 7))
}

/// When the attendance obligation of an event ends.
pub open spec fn closes_at(e: Event) -> DateTime {
    match e.release_time {
        Some(t) => t,
        None => e.call_time,
    }
}

/// Event `e` counts for the week of `of`: another event of the same
/// semester and type, called after the start of that week, whose attendance
/// window closed before both the end of that week and `now`.
pub open spec fn counts_for_week(of: Event, e: Event, event_type: Seq<char>, now: DateTime) -> bool {
    let start = week_start(of.call_time);
    &&& e.id != of.id
    &&& e.semester@ == of.semester@
    &&& start.instant() < e.call_time.instant()
    &&& closes_at(e).instant() < start.shifted(7).instant()
    &&& closes_at(e).instant() < now.instant()
    &&& e.type_@ == event_type
}

/// Some event that counts for the week was attended, or excused by an
/// approved request of the member whose attendance row it is.
pub open spec fn went_in_week(
    of: Event,
    events: Seq<(Event, Attendance)>,
    requests: Seq<AbsenceRequest>,
    event_type: Seq<char>,
    now: DateTime,
) -> bool {
    exists|i: int|
        0 <= i < events.len() && counts_for_week(of, (#[trigger] events[i]).0, event_type, now) && (
        events[i].1.did_attend || approved_absence(requests, events[i].1.member@, events[i].0.id))
}

/// Some event counts for the week.
pub open spec fn any_in_week(
    of: Event,
    events: Seq<(Event, Attendance)>,
    event_type: Seq<char>,
    now: DateTime,
) -> bool {
    exists|i: int| 0 <= i < events.len() && counts_for_week(of, (#[trigger] events[i]).0, event_type, now)
}

impl Event {
    /// The week of the event: from the most recent Sunday at or before its
    /// call time, at the same time of day, to seven days later.
    pub fn week_of(&self) -> (r: (DateTime, DateTime))
        requires
            self.call_time.wf(),
            day_in_range(self.call_time.date.day as int),
        ensures
            r.0 == week_start(self.call_time),
            r.1 == week_start(self.call_time).shifted(7),
    {
        let back = days_since_sunday(self.call_time.date.day);
        let start = self.call_time.plus_days(-(back as i32));
        (start, start.plus_days(7))
    }

    /// Whether the member went to an event of `event_type` in the week of
    /// this event, judged by the other events of the semester whose
    /// attendance window has closed by `now`: `None` when there is no such
    /// event, else whether one of them was attended or excused by an
    /// approved absence request of the member of its attendance row.
    pub fn went_to_event_type_during_week_of(
        &self,
        semester_events_with_attendance: &Vec<(Event, Attendance)>,
        semester_absence_requests: &Vec<AbsenceRequest>,
        event_type: &str,
        now: DateTime,
    ) -> (r: Option<bool>)
        requires
            self.call_time.wf(),
            now.wf(),
            forall|i: int|
                0 <= i < semester_events_with_attendance@.len()
                    ==> (#[trigger] semester_events_with_attendance@[i]).0.times_wf(),
            day_in_range(self.call_time.date.day as int),
        ensures
            !any_in_week(*self, semester_events_with_attendance@, event_type@, now) ==> r is None,
            any_in_week(*self, semester_events_with_attendance@, event_type@, now) ==> r == Some(
                went_in_week(
                    *self,
                    semester_events_with_attendance@,
                    semester_absence_requests@,
                    event_type@,
                    now,
                ),
            ),
    {
        let events = semester_events_with_attendance;
        let (start, end) = self.week_of();
        let mut found = false;
        let mut went = false;
        let mut i: usize = 0;
        while i < events.len()
            invariant
                i <= events@.len(),
                start == week_start(self.call_time),
                start.wf(),
                end.wf(),
                now.wf(),
                forall|j: int| 0 <= j < events@.len() ==> (#[trigger] events@[j]).0.times_wf(),
                end == week_start(self.call_time).shifted(7),
                found == exists|j: int|
                    0 <= j < i && counts_for_week(*self, (#[trigger] events@[j]).0, event_type@, now),
                went == exists|j: int|
                    0 <= j < i && counts_for_week(*self, (#[trigger] events@[j]).0, event_type@, now)
                        && (events@[j].1.did_attend || approved_absence(
                        semester_absence_requests@,
                        events@[j].1.member@,
                        events@[j].0.id,
                    )),
            decreases events@.len() - i,
        {
            let e = &events[i].0;
            let attendance = &events[i].1;
            let closes = match e.release_time {
                Some(t) => t,
                None => e.call_time,
            };
            let counts = e.id != self.id && e.semester == self.semester && start.is_before(
                &e.call_time,
            ) && closes.is_before(&end) && closes.is_before(&now) && same_text(
                e.type_.as_str(),
                event_type,
            );
            if counts {
                found = true;
                if attendance.did_attend || has_approved_absence(
                    semester_absence_requests,
                    attendance.member.as_str(),
                    e.id,
                ) {
                    went = true;
                }
            }
            i = i + 1;
        }
        if found {
            Some(went)
        } else {
            None
        }
    }
}

} // verus!
