//! The decisions of the event store: what creating or updating an event
//! writes, and in which transaction.

use crate::calendar::{day_in_range, is_expansion, repeat_setting, Date, DateTime, Period};
use crate::error::{GreaseError, GreaseResult, ValidationError};
use crate::event::{Event, EventWithGig, Gig};
use crate::gig_request::{GigRequest, GigRequestStatus};
use vstd::prelude::*;

verus! {

/// The fields of an event to create, with its repeat settings.
#[derive(Clone, Debug, PartialEq, Eq)]
pub struct NewEvent {
    pub name: String,
    pub semester: String,
    pub type_: String,
    pub call_time: DateTime,
    pub release_time: Option<DateTime>,
    pub points: i32,
    pub comments: Option<String>,
    pub location: Option<String>,
    pub default_attend: bool,
    pub gig_count: bool,
    pub repeat: String,
    pub repeat_until: Option<Date>,
}

/// The gig details of an event created from a gig request.
#[derive(Clone, Debug, PartialEq, Eq)]
pub struct NewGig {
    pub performance_time: DateTime,
    pub uniform: i32,
    pub contact_name: Option<String>,
    pub contact_email: Option<String>,
    pub contact_phone: Option<String>,
    pub price: Option<i32>,
    pub public: bool,
    pub summary: Option<String>,
    pub description: Option<String>,
}

impl NewEvent {
    /// The times of the new event lie within their days, and its dates in
    /// the range this library handles.
    pub open spec fn dates_valid(self) -> bool {
        &&& self.call_time.wf()
        &&& (self.release_time matches Some(t) ==> t.wf())
        &&& day_in_range(self.call_time.date.day as int)
        &&& (self.release_time matches Some(t) ==> day_in_range(t.date.day as int))
        &&& (self.repeat_until matches Some(u) ==> day_in_range(u.day as int))
    }

    /// A release time is given that is not after the call time.
    pub open spec fn release_not_after_call(self) -> bool {
        self.release_time matches Some(t) && !(self.call_time.instant() < t.instant())
    }

    /// The event repeats, but no date to repeat until is given.
    pub open spec fn lacks_repeat_until(self) -> bool {
        repeat_setting(self.repeat@) matches Some(Some(_)) && self.repeat_until is None
    }

    /// The call and release times of the occurrences that creating the
    /// event writes.
    pub open spec fn planned_times(self, times: Seq<(DateTime, Option<DateTime>)>) -> bool {
        match repeat_setting(self.repeat@) {
            Some(Some(period)) => is_expansion(
                times,
                self.call_time,
                self.release_time,
                period,
                self.repeat_until.unwrap(),
            ),
            _ => times == seq![(self.call_time, self.release_time)],
        }
    }
}

/// What creating an event writes in one transaction: an event row per
/// occurrence, each with its attendance rows and, for an event born of a gig
/// request, its gig row; and then the request, bound to the last event.
pub struct EventCreation {
    pub event: NewEvent,
    pub times: Vec<(DateTime, Option<DateTime>)>,
    pub gig: Option<NewGig>,
    pub request: Option<GigRequest>,
}

/// The outcome of a creation: the id of the last event written, and the
/// originating request as it is to be stored.
pub struct CreatedEvent {
    pub id: i32,
    pub accepted_request: Option<GigRequest>,
}

/// The request once bound to event `id` and accepted.
pub open spec fn accepted_with(q: GigRequest, id: i32) -> GigRequest {
    GigRequest { event: Some(id), status: GigRequestStatus::Accepted, ..q }
}

impl Event {
    /// Validates a new event and plans its creation: the release time, when
    /// given, must follow the call time; the repeat setting must be known,
    /// and a repeating event needs a date to repeat until. Once the store
    /// has written the plan, `EventCreation::finish` names the last
    /// occurrence as the created event.
    pub fn create(new_event: NewEvent, from_request: Option<(GigRequest, NewGig)>) -> (r:
        GreaseResult<EventCreation>)
        requires
            new_event.dates_valid(),
        ensures
            new_event.release_not_after_call() ==> r == Err::<EventCreation, GreaseError>(
                GreaseError::BadRequest(ValidationError::ReleaseNotAfterCall),
            ),
            !new_event.release_not_after_call() && repeat_setting(new_event.repeat@) is None ==> (
            r matches Err(GreaseError::BadRequest(ValidationError::UnknownRepeat(v))) && v@
                == new_event.repeat@),
            !new_event.release_not_after_call() && new_event.lacks_repeat_until() ==> r
                == Err::<EventCreation, GreaseError>(
                GreaseError::BadRequest(ValidationError::MissingRepeatUntil),
            ),
            !new_event.release_not_after_call() && repeat_setting(new_event.repeat@) is Some
                && !new_event.lacks_repeat_until() ==> r is Ok,
            r matches Ok(plan) ==> {
                &&& plan.event == new_event
                &&& new_event.planned_times(plan.times@)
                &&& plan.gig == (match from_request {
                    Some(x) => Some(x.1),
                    None => None,
                })
                &&& plan.request == (match from_request {
                    Some(x) => Some(x.0),
                    None => None,
                })
            },
    {
        if let Some(release) = new_event.release_time {
            if !new_event.call_time.is_before(&release) {
                return Err(GreaseError::BadRequest(ValidationError::ReleaseNotAfterCall));
            }
        }
        let times = match Period::parse(new_event.repeat.as_str()) {
            Err(e) => {
                return Err(e);
            },
            Ok(Some(period)) => {
                match new_event.repeat_until {
                    Some(until) => Self::repeat_event_times(
                        new_event.call_time,
                        new_event.release_time,
                        period,
                        until,
                    ),
                    None => {
                        return Err(GreaseError::BadRequest(ValidationError::MissingRepeatUntil));
                    },
                }
            },
            Ok(None) => {
                let mut single: Vec<(DateTime, Option<DateTime>)> = Vec::new();
                single.push((new_event.call_time, new_event.release_time));
                assert(single@ =~= seq![(new_event.call_time, new_event.release_time)]);
                single
            },
        };
        assert(new_event.planned_times(times@));
        if times.len() == 0 {
            return Err(GreaseError::BadRequest(ValidationError::NoOccurrences));
        }
        let (request, gig) = match from_request {
            Some((request, gig)) => (Some(request), Some(gig)),
            None => (None, None),
        };
        Ok(EventCreation { event: new_event, times, gig, request })
    }
}

impl EventCreation {
    /// Concludes a creation once the store has given an id to each
    /// occurrence, in order: the last id stands for the whole creation, and
    /// the originating request is bound to it and accepted.
    pub fn finish(self, new_ids: &Vec<i32>) -> (r: GreaseResult<CreatedEvent>)
        ensures
            new_ids@.len() != self.times@.len() ==> r matches Err(GreaseError::ServerError(_)),
            new_ids@.len() == self.times@.len() && self.times@.len() > 0 ==> (r matches Ok(c) && c.id
                == new_ids@.last() && c.accepted_request == (match self.request {
                Some(q) => Some(accepted_with(q, new_ids@.last())),
                None => None,
            })),
    {
        let n = self.times.len();
        if new_ids.len() != n || n == 0 {
            return Err(GreaseError::ServerError("error inserting new event into database".to_owned()));
        }
        let id = new_ids[n - 1];
        let accepted_request = match self.request {
            Some(q) => Some(GigRequest { event: Some(id), status: GigRequestStatus::Accepted, ..q }),
            None => None,
        };
        Ok(CreatedEvent { id, accepted_request })
    }
}

/// The new values of an event, and of its gig fields.
#[derive(Clone, Debug, PartialEq, Eq)]
pub struct EventUpdate {
    pub name: String,
    pub semester: String,
    pub type_: String,
    pub call_time: DateTime,
    pub release_time: Option<DateTime>,
    pub points: i32,
    pub comments: Option<String>,
    pub location: Option<String>,
    pub gig_count: bool,
    pub default_attend: bool,
    pub section: Option<String>,
    pub performance_time: Option<DateTime>,
    pub uniform: Option<i32>,
    pub contact_name: Option<String>,
    pub contact_email: Option<String>,
    pub contact_phone: Option<String>,
    pub price: Option<i32>,
    pub public: Option<bool>,
    pub summary: Option<String>,
    pub description: Option<String>,
}

/// What an update does to the gig row of an event.
#[derive(Clone, Debug, PartialEq, Eq)]
pub enum GigWrite {
    /// The event is no gig and stays one.
    Unchanged,
    /// The event's gig row takes these values.
    Update(Gig),
    /// The event becomes a gig with this row.
    Insert(Gig),
}

/// The rows an update writes, in one transaction.
#[derive(Clone, Debug, PartialEq, Eq)]
pub struct EventChange {
    pub event: Event,
    pub gig: GigWrite,
}

impl EventUpdate {
    /// The times of the update lie within their days.
    pub open spec fn times_wf(self) -> bool {
        &&& self.call_time.wf()
        &&& (self.release_time matches Some(t) ==> t.wf())
        &&& (self.performance_time matches Some(t) ==> t.wf())
    }

    /// The update gives some gig field.
    pub open spec fn sets_gig_field(self) -> bool {
        self.performance_time.is_some() || self.uniform.is_some() || self.contact_name.is_some()
            || self.contact_email.is_some() || self.contact_phone.is_some()
            || self.price.is_some() || self.public.is_some() || self.summary.is_some()
            || self.description.is_some()
    }

    /// The event row that the update writes for event `id`.
    pub open spec fn event_row(self, id: i32) -> Event {
        Event {
            id,
            name: self.name,
            semester: self.semester,
            type_: self.type_,
            call_time: self.call_time,
            release_time: self.release_time,
            points: self.points,
            comments: self.comments,
            location: self.location,
            gig_count: self.gig_count,
            default_attend: self.default_attend,
            section: self.section,
        }
    }

    /// The gig row that the update writes for event `id`, with the given
    /// visibility.
    pub open spec fn gig_row(self, id: i32, public: bool) -> Gig {
        Gig {
            event: id,
            performance_time: self.performance_time.unwrap(),
            uniform: self.uniform.unwrap(),
            contact_name: self.contact_name,
            contact_email: self.contact_email,
            contact_phone: self.contact_phone,
            price: self.price,
            public,
            summary: self.summary,
            description: self.description,
        }
    }
}

/// The gig write of a successful update of `existing`: the gig is updated
/// where there is one, keeping its visibility unless a new one is given; it
/// is inserted, not public unless said otherwise, where the update gives a
/// gig field to an event that is no gig.
pub open spec fn gig_write_of(existing: EventWithGig, u: EventUpdate) -> GigWrite {
    match existing.gig {
        Some(g) => GigWrite::Update(
            u.gig_row(existing.event.id, if u.public is Some { u.public.unwrap() } else { g.public }),
        ),
        None => if u.sets_gig_field() {
            GigWrite::Insert(
                u.gig_row(existing.event.id, if u.public is Some { u.public.unwrap() } else { false }),
            )
        } else {
            GigWrite::Unchanged
        },
    }
}

impl Event {
    /// Plans the update of a stored event: its own fields always take the
    /// new values; a gig, or an event that the update makes a gig, needs a
    /// performance time and a uniform.
    pub fn update(existing: &EventWithGig, event_update: EventUpdate) -> (r: GreaseResult<
        EventChange,
    >)
        requires
            event_update.times_wf(),
        ensures
            ({
                let gig_touched = existing.gig is Some || event_update.sets_gig_field();
                &&& gig_touched && event_update.performance_time is None ==> r == Err::<
                    EventChange,
                    GreaseError,
                >(GreaseError::BadRequest(ValidationError::MissingPerformanceTime))
                &&& gig_touched && event_update.performance_time is Some
                    && event_update.uniform is None ==> r == Err::<EventChange, GreaseError>(
                    GreaseError::BadRequest(ValidationError::MissingUniform),
                )
                &&& !gig_touched || (event_update.performance_time is Some
                    && event_update.uniform is Some) ==> r == Ok::<EventChange, GreaseError>(
                    EventChange {
                        event: event_update.event_row(existing.event.id),
                        gig: gig_write_of(*existing, event_update),
                    },
                )
            }),
    {
        let id = existing.event.id;
        let gig_touched = existing.gig.is_some() || event_update.performance_time.is_some()
            || event_update.uniform.is_some() || event_update.contact_name.is_some()
            || event_update.contact_email.is_some() || event_update.contact_phone.is_some()
            || event_update.price.is_some() || event_update.public.is_some()
            || event_update.summary.is_some() || event_update.description.is_some();
        let gig = if gig_touched {
            let performance_time = match event_update.performance_time {
                Some(t) => t,
                None => {
                    return Err(GreaseError::BadRequest(ValidationError::MissingPerformanceTime));
                },
            };
            let uniform = match event_update.uniform {
                Some(u) => u,
                None => {
                    return Err(GreaseError::BadRequest(ValidationError::MissingUniform));
                },
            };
            let public = match event_update.public {
                Some(p) => p,
                None => match &existing.gig {
                    Some(g) => g.public,
                    None => false,
                },
            };
            let row = Gig {
                event: id,
                performance_time,
                uniform,
                contact_name: event_update.contact_name,
                contact_email: event_update.contact_email,
                contact_phone: event_update.contact_phone,
                price: event_update.price,
                public,
                summary: event_update.summary,
                description: event_update.description,
            };
            if existing.gig.is_some() {
                GigWrite::Update(row)
            } else {
                GigWrite::Insert(row)
            }
        } else {
            GigWrite::Unchanged
        };
        let event = Event {
            id,
            name: event_update.name,
            semester: event_update.semester,
            type_: event_update.type_,
            call_time: event_update.call_time,
            release_time: event_update.release_time,
            points: event_update.points,
            comments: event_update.comments,
            location: event_update.location,
            gig_count: event_update.gig_count,
            default_attend: event_update.default_attend,
            section: event_update.section,
        };
        Ok(EventChange { event, gig })
    }
}

} // verus!
