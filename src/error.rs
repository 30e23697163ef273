//! The failures that the event and gig request operations report.

use vstd::prelude::*;

verus! {

/// A request that is malformed or contradicts the stored state.
#[derive(Clone, Debug, PartialEq, Eq)]
pub enum ValidationError {
    /// A release time was given that is not after the call time.
    ReleaseNotAfterCall,
    /// The repeat setting is not one of the known values; it holds the value given.
    UnknownRepeat(String),
    /// A repeat setting was given without a date to repeat until.
    MissingRepeatUntil,
    /// The repeat settings would produce no event at all.
    NoOccurrences,
    /// A gig needs a performance time.
    MissingPerformanceTime,
    /// A gig needs a uniform.
    MissingUniform,
    /// An accepted gig request keeps its status.
    AcceptedIsFinal,
    /// A dismissed gig request must be reopened before it is accepted.
    ReopenBeforeAccepting,
    /// A gig request needs its event before it is accepted.
    EventRequiredBeforeAccepting,
}

/// The failures of the library's operations.
#[derive(Clone, Debug, PartialEq, Eq)]
pub enum GreaseError {
    /// The caller's request is wrong.
    BadRequest(ValidationError),
    /// No row has the given id; the message names it.
    NotFound(String),
    /// An internal invariant was broken.
    ServerError(String),
}

pub type GreaseResult<T> = Result<T, GreaseError>;

} // verus!
