//! Requests from outside organizations for a performance, and the rules by
//! which their status changes.

use crate::calendar::DateTime;
use crate::error::{GreaseError, GreaseResult, ValidationError};
use vstd::prelude::*;

verus! {

/// Where a gig request stands.
#[derive(Clone, Copy, Debug, PartialEq, Eq, Structural)]
pub enum GigRequestStatus {
    Pending,
    Accepted,
    Dismissed,
}

/// A request for the group to perform.
#[derive(Clone, Debug, PartialEq, Eq)]
pub struct GigRequest {
    pub id: i32,
    pub time: DateTime,
    pub name: String,
    pub organization: String,
    pub event: Option<i32>,
    pub contact_name: String,
    pub contact_email: String,
    pub contact_phone: String,
    pub start_time: DateTime,
    pub location: String,
    pub comments: Option<String>,
    pub status: GigRequestStatus,
}

/// Why a request with status `from` may not move to `to`, or `None` where it
/// may; `has_event` tells whether the request is bound to an event.
pub open spec fn refused_change(
    from: GigRequestStatus,
    to: GigRequestStatus,
    has_event: bool,
) -> Option<ValidationError> {
    if from == to {
        None
    } else if from == GigRequestStatus::Accepted {
        Some(ValidationError::AcceptedIsFinal)
    } else if from == GigRequestStatus::Dismissed && to == GigRequestStatus::Accepted {
        Some(ValidationError::ReopenBeforeAccepting)
    } else if from == GigRequestStatus::Pending && to == GigRequestStatus::Accepted && !has_event {
        Some(ValidationError::EventRequiredBeforeAccepting)
    } else {
        None
    }
}

impl GigRequest {
    /// Moves the request to `status`. On success the result tells whether
    /// the status changed, so that the stored row needs writing; on failure
    /// the request is left as it was.
    pub fn set_status(&mut self, status: GigRequestStatus) -> (r: GreaseResult<bool>)
        ensures
            refused_change(old(self).status, status, old(self).event.is_some()) matches Some(e)
                ==> r == Err::<bool, GreaseError>(GreaseError::BadRequest(e)) && *final(self)
                == *old(self),
            refused_change(old(self).status, status, old(self).event.is_some()) is None ==> r
                == Ok::<bool, GreaseError>(old(self).status != status) && *final(self) == (
            GigRequest { status, ..*old(self) }),
    {
        let from = self.status;
        if from == status {
            Ok(false)
        } else if from == GigRequestStatus::Accepted {
            Err(GreaseError::BadRequest(ValidationError::AcceptedIsFinal))
        } else if from == GigRequestStatus::Dismissed && status == GigRequestStatus::Accepted {
            Err(GreaseError::BadRequest(ValidationError::ReopenBeforeAccepting))
        } else if from == GigRequestStatus::Pending && status == GigRequestStatus::Accepted
            && self.event.is_none() {
            Err(GreaseError::BadRequest(ValidationError::EventRequiredBeforeAccepting))
        } else {
            self.status = status;
            Ok(true)
        }
    }
}

/// An accepted request keeps its status, a dismissed request must be
/// reopened before it is accepted, and a pending request is accepted only
/// once it is bound to an event; a pending request bound to an event may be
/// accepted, and a dismissed request may be reopened.
pub proof fn lemma_status_rules(has_event: bool)
    ensures
        refused_change(GigRequestStatus::Accepted, GigRequestStatus::Dismissed, has_event)
            is Some,
        refused_change(GigRequestStatus::Accepted, GigRequestStatus::Pending, has_event) is Some,
        refused_change(GigRequestStatus::Dismissed, GigRequestStatus::Accepted, has_event)
            is Some,
        refused_change(GigRequestStatus::Pending, GigRequestStatus::Accepted, false) is Some,
        refused_change(GigRequestStatus::Pending, GigRequestStatus::Accepted, true) is None,
        refused_change(GigRequestStatus::Dismissed, GigRequestStatus::Pending, has_event) is None,
        refused_change(GigRequestStatus::Pending, GigRequestStatus::Dismissed, has_event) is None,
{
}

} // verus!
