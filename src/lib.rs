//! Event and gig lifecycle of a choir's membership backend: recurring event
//! expansion, event/gig composition, event creation and update decisions,
//! weekly attendance resolution and the gig request state machine.

pub mod attendance;
pub mod calendar;
pub mod error;
pub mod event;
pub mod gig_request;
pub mod store;
