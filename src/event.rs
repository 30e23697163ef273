//! Events, their optional gig extension, and the composed view of the two.

use crate::calendar::{
    day_in_range, is_expansion, lemma_occurrence_day_monotonic, occurrence, occurrence_day,
    step_of, Date, DateTime, Period, DAY_LIMIT,
};
use vstd::prelude::*;

verus! {

/// A rehearsal, performance or other meeting of the group.
#[derive(Clone, Debug, PartialEq, Eq)]
pub struct Event {
    pub id: i32,
    pub name: String,
    pub semester: String,
    pub type_: String,
    pub call_time: DateTime,
    pub release_time: Option<DateTime>,
    pub points: i32,
    pub comments: Option<String>,
    pub location: Option<String>,
    pub gig_count: bool,
    pub default_attend: bool,
    pub section: Option<String>,
}

impl Event {
    /// The event's times lie within their days.
    pub open spec fn times_wf(self) -> bool {
        self.call_time.wf() && (self.release_time matches Some(t) ==> t.wf())
    }
}

/// The performance details of an event that is a gig.
#[derive(Clone, Debug, PartialEq, Eq)]
pub struct Gig {
    pub event: i32,
    pub performance_time: DateTime,
    pub uniform: i32,
    pub contact_name: Option<String>,
    pub contact_email: Option<String>,
    pub contact_phone: Option<String>,
    pub price: Option<i32>,
    pub public: bool,
    pub summary: Option<String>,
    pub description: Option<String>,
}

/// An event together with its gig, if it is one.
#[derive(Clone, Debug, PartialEq, Eq)]
pub struct EventWithGig {
    pub event: Event,
    pub gig: Option<Gig>,
}

/// One row of the event table left-joined with the gig table.
#[derive(Clone, Debug, PartialEq, Eq)]
pub struct EventWithGigRow {
    pub id: i32,
    pub name: String,
    pub semester: String,
    pub type_: String,
    pub call_time: DateTime,
    pub release_time: Option<DateTime>,
    pub points: i32,
    pub comments: Option<String>,
    pub location: Option<String>,
    pub gig_count: bool,
    pub default_attend: bool,
    pub section: Option<String>,
    pub event: Option<i32>,
    pub performance_time: Option<DateTime>,
    pub uniform: Option<i32>,
    pub contact_name: Option<String>,
    pub contact_email: Option<String>,
    pub contact_phone: Option<String>,
    pub price: Option<i32>,
    pub public: Option<bool>,
    pub summary: Option<String>,
    pub description: Option<String>,
}

/// A joined row describes a gig exactly when all the columns a gig cannot
/// lack are present.
pub open spec fn has_gig_columns(row: EventWithGigRow) -> bool {
    row.event.is_some() && row.performance_time.is_some() && row.uniform.is_some()
        && row.public.is_some()
}

/// The event part of a joined row.
pub open spec fn event_of_row(row: EventWithGigRow) -> Event {
    Event {
        id: row.id,
        name: row.name,
        semester: row.semester,
        type_: row.type_,
        call_time: row.call_time,
        release_time: row.release_time,
        points: row.points,
        comments: row.comments,
        location: row.location,
        gig_count: row.gig_count,
        default_attend: row.default_attend,
        section: row.section,
    }
}

/// The composed view of a joined row.
pub open spec fn view_of_row(row: EventWithGigRow) -> EventWithGig {
    EventWithGig {
        event: event_of_row(row),
        gig: if has_gig_columns(row) {
            Some(
                Gig {
                    event: row.event.unwrap(),
                    performance_time: row.performance_time.unwrap(),
                    uniform: row.uniform.unwrap(),
                    contact_name: row.contact_name,
                    contact_email: row.contact_email,
                    contact_phone: row.contact_phone,
                    price: row.price,
                    public: row.public.unwrap(),
                    summary: row.summary,
                    description: row.description,
                },
            )
        } else {
            None
        },
    }
}

/// The joined row that a composed view flattens to; every gig column is
/// empty when there is no gig.
pub open spec fn row_of_view(v: EventWithGig) -> EventWithGigRow {
    EventWithGigRow {
        id: v.event.id,
        name: v.event.name,
        semester: v.event.semester,
        type_: v.event.type_,
        call_time: v.event.call_time,
        release_time: v.event.release_time,
        points: v.event.points,
        comments: v.event.comments,
        location: v.event.location,
        gig_count: v.event.gig_count,
        default_attend: v.event.default_attend,
        section: v.event.section,
        event: match v.gig { Some(g) => Some(g.event), None => None },
        performance_time: match v.gig { Some(g) => Some(g.performance_time), None => None },
        uniform: match v.gig { Some(g) => Some(g.uniform), None => None },
        contact_name: match v.gig { Some(g) => g.contact_name, None => None },
        contact_email: match v.gig { Some(g) => g.contact_email, None => None },
        contact_phone: match v.gig { Some(g) => g.contact_phone, None => None },
        price: match v.gig { Some(g) => g.price, None => None },
        public: match v.gig { Some(g) => Some(g.public), None => None },
        summary: match v.gig { Some(g) => g.summary, None => None },
        description: match v.gig { Some(g) => g.description, None => None },
    }
}

impl EventWithGigRow {
    /// Decodes a joined row into the composed view: the event always, and a
    /// gig only where the event id, performance time, uniform and visibility
    /// columns are all present.
    pub fn into(self) -> (r: EventWithGig)
        ensures
            r == view_of_row(self),
    {
        let has_gig = self.event.is_some() && self.performance_time.is_some()
            && self.uniform.is_some() && self.public.is_some();
        let gig = if has_gig {
            Some(
                Gig {
                    event: self.event.unwrap(),
                    performance_time: self.performance_time.unwrap(),
                    uniform: self.uniform.unwrap(),
                    contact_name: self.contact_name,
                    contact_email: self.contact_email,
                    contact_phone: self.contact_phone,
                    price: self.price,
                    public: self.public.unwrap(),
                    summary: self.summary,
                    description: self.description,
                },
            )
        } else {
            None
        };
        EventWithGig {
            event: Event {
                id: self.id,
                name: self.name,
                semester: self.semester,
                type_: self.type_,
                call_time: self.call_time,
                release_time: self.release_time,
                points: self.points,
                comments: self.comments,
                location: self.location,
                gig_count: self.gig_count,
                default_attend: self.default_attend,
                section: self.section,
            },
            gig,
        }
    }
}

impl EventWithGig {
    /// Flattens the view into one joined row, with every gig column empty
    /// when the event is no gig: the plain serialized form of the view.
    pub fn to_row(&self) -> (r: EventWithGigRow)
        ensures
            r == row_of_view(*self),
    {
        let e = &self.event;
        let (event, performance_time, uniform, contact_name, contact_email, contact_phone,
            price, public, summary, description) = match &self.gig {
            Some(g) => (
                Some(g.event),
                Some(g.performance_time),
                Some(g.uniform),
                g.contact_name.clone(),
                g.contact_email.clone(),
                g.contact_phone.clone(),
                g.price,
                Some(g.public),
                g.summary.clone(),
                g.description.clone(),
            ),
            None => (None, None, None, None, None, None, None, None, None, None),
        };
        EventWithGigRow {
            id: e.id,
            name: e.name.clone(),
            semester: e.semester.clone(),
            type_: e.type_.clone(),
            call_time: e.call_time,
            release_time: e.release_time,
            points: e.points,
            comments: e.comments.clone(),
            location: e.location.clone(),
            gig_count: e.gig_count,
            default_attend: e.default_attend,
            section: e.section.clone(),
            event,
            performance_time,
            uniform,
            contact_name,
            contact_email,
            contact_phone,
            price,
            public,
            summary,
            description,
        }
    }
}

/// Flattening a view into a joined row and decoding that row gives back the
/// same view.
pub proof fn lemma_view_round_trip(v: EventWithGig)
    ensures
        view_of_row(row_of_view(v)) == v,
{
}

/// Decoding a joined row and flattening the view keeps every column when the
/// row describes a gig; otherwise the view has no gig, whatever other gig
/// columns the row holds, and keeps every event column.
pub proof fn lemma_row_round_trip(row: EventWithGigRow)
    ensures
        has_gig_columns(row) ==> row_of_view(view_of_row(row)) == row,
        !has_gig_columns(row) ==> view_of_row(row).gig.is_none(),
        event_of_row(row_of_view(view_of_row(row))) == event_of_row(row),
{
}

impl Event {
    /// The call and release times of every occurrence of an event repeated
    /// by `period`: the given pair first, then one pair per step whose call
    /// date is before `until`, stopping at the first step that is not.
    pub fn repeat_event_times(
        call_time: DateTime,
        release_time: Option<DateTime>,
        period: Period,
        until: Date,
    ) -> (r: Vec<(DateTime, Option<DateTime>)>)
        requires
            call_time.wf(),
            release_time matches Some(t) ==> t.wf(),
            day_in_range(call_time.date.day as int),
            day_in_range(until.day as int),
            release_time matches Some(t) ==> day_in_range(t.date.day as int),
        ensures
            forall|i: int|
                0 <= i < r@.len() ==> (#[trigger] r@[i]).0.wf() && (r@[i].1 matches Some(t)
                    ==> t.wf()),
            is_expansion(r@, call_time, release_time, period, until),
            forall|i: int, j: int|
                0 <= i < j < r@.len() ==> (#[trigger] r@[i]).0.instant() < (#[trigger] r@[j]).0.instant(),
            call_time.date.day < until.day ==> r@.last().0.date.day < until.day,
            call_time.date.day < until.day ==> forall|k: nat|
                #[trigger] occurrence_day(call_time.date.day as int, period, k) < until.day
                    ==> occurrence_day(call_time.date.day as int, period, k) <= r@.last().0.date.day,
    {
        let start = call_time.date.day;
        let mut times: Vec<(DateTime, Option<DateTime>)> = Vec::new();
        times.push((call_time, release_time));
        let mut day: i32 = start;
        assert(times@[0] == occurrence(call_time, release_time, period, 0));
        loop
            invariant
                1 <= times@.len(),
                call_time.wf(),
                release_time matches Some(t) ==> t.wf(),
                day_in_range(start as int),
                day_in_range(until.day as int),
                release_time matches Some(t) ==> day_in_range(t.date.day as int),
                day_in_range(day as int),
                start <= day,
                day as int == occurrence_day(start as int, period, (times@.len() - 1) as nat),
                forall|i: int|
                    0 <= i < times@.len() ==> #[trigger] times@[i] == occurrence(
                        call_time,
                        release_time,
                        period,
                        i as nat,
                    ),
                forall|i: int|
                    1 <= i < times@.len() ==> #[trigger] occurrence_day(
                        start as int,
                        period,
                        i as nat,
                    ) < until.day,
                start == call_time.date.day,
            ensures
                occurrence_day(start as int, period, times@.len() as nat) >= until.day,
            decreases DAY_LIMIT - day,
        {
            let step = step_of(period, day);
            let next = day + step;
            proof {
                assert(next as int == occurrence_day(start as int, period, times@.len() as nat));
            }
            if next >= until.day {
                break;
            }
            let offset = next - start;
            let next_release = match release_time {
                Some(t) => Some(t.plus_days(offset)),
                None => None,
            };
            let ghost k = times@.len();
            times.push((call_time.plus_days(offset), next_release));
            day = next;
            assert(times@[k as int] == occurrence(call_time, release_time, period, k as nat));
        }
        proof {
            let n = times@.len();
            assert forall|i: int| 0 <= i < n implies (#[trigger] times@[i]).0.wf() && (
            times@[i].1 matches Some(t) ==> t.wf()) by {
                assert(times@[i] == occurrence(call_time, release_time, period, i as nat));
            }
            assert forall|i: int, j: int| 0 <= i < j < n implies (#[trigger] times@[i]).0.instant()
                < (#[trigger] times@[j]).0.instant() by {
                lemma_occurrence_day_monotonic(start as int, period, i as nat, j as nat);
                if i > 0 {
                    lemma_occurrence_day_monotonic(start as int, period, 0, i as nat);
                    assert(occurrence_day(start as int, period, i as nat) < until.day);
                }
                assert(occurrence_day(start as int, period, j as nat) < until.day);
                assert(times@[i] == occurrence(call_time, release_time, period, i as nat));
                assert(times@[j] == occurrence(call_time, release_time, period, j as nat));
            }
            assert(times@.last() == times@[n - 1]);
            assert forall|k: nat| #[trigger] occurrence_day(start as int, period, k) < until.day
                implies occurrence_day(start as int, period, k) <= times@.last().0.date.day by {
                if k >= n {
                    if k > n {
                        lemma_occurrence_day_monotonic(start as int, period, n as nat, k);
                    }
                } else if k < n - 1 {
                    lemma_occurrence_day_monotonic(start as int, period, k, (n - 1) as nat);
                }
            }
        }
        times
    }
}

} // verus!
