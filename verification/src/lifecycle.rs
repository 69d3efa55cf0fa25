//! The life of one registration in one poller, as its owner keeps track of it.
//!
//! A registration does not know whether it is registered. The layer that
//! owns it does: it starts from [`Lifecycle::new`], performs each call on the
//! backend and records how the backend answered.

use vstd::prelude::*;
use crate::event::Event;
use crate::registration::Registration;
use crate::request::Request;
use crate::waitable::Waitable;

verus! {

/// What one poller holds about one resource.
#[derive(Clone, Copy, Debug, PartialEq, Eq, Structural)]
pub struct Lifecycle {
    /// The resource that is followed.
    pub source: Waitable,
    /// `None` while the poller does not know the resource; else the interest
    /// that it watches for, which after an add asks for nothing yet.
    pub watched: Option<Event>,
}

impl Lifecycle {
    /// Whether `request` is in order at this point: it is about the resource
    /// that is followed; an add finds it unregistered; a modify or a delete
    /// finds it registered. A backend answers a call that is out of order
    /// with an error.
    pub open spec fn permits(self, request: Request) -> bool {
        &&& request.source_spec() == self.source
        &&& match request {
            Request::Add { .. } => self.watched is None,
            Request::Modify { .. } => self.watched is Some,
            Request::Delete { .. } => self.watched is Some,
        }
    }

    /// The lifecycle once the backend has answered `request`, with success if
    /// `accepted`. A call that failed, or that is about another resource,
    /// changes nothing. One that succeeded is taken at the backend's word.
    pub open spec fn after(self, request: Request, accepted: bool) -> Lifecycle {
        if accepted && request.source_spec() == self.source {
            match request {
                Request::Add { interest, .. } => Lifecycle { watched: Some(interest), ..self },
                Request::Modify { interest, .. } => Lifecycle { watched: Some(interest), ..self },
                Request::Delete { .. } => Lifecycle { watched: None, ..self },
            }
        } else {
            self
        }
    }

    /// The lifecycle of a resource that no poller has been told about.
    pub fn new(source: Waitable) -> (life: Lifecycle)
        ensures
            life == (Lifecycle { source, watched: None }),
    {
        Lifecycle { source, watched: None }
    }

    /// Whether `request` is in order at this point.
    pub fn is_permitted(&self, request: &Request) -> (permitted: bool)
        ensures
            permitted == self.permits(*request),
    {
        if request.source() != self.source {
            return false;
        }
        match request {
            Request::Add { .. } => self.watched.is_none(),
            Request::Modify { .. } => self.watched.is_some(),
            Request::Delete { .. } => self.watched.is_some(),
        }
    }

    /// Records the backend's answer to `request`.
    pub fn record(&mut self, request: &Request, accepted: bool)
        ensures
            *final(self) == old(self).after(*request, accepted),
    {
        if accepted && request.source() == self.source {
            match request {
                Request::Add { interest, .. } => {
                    self.watched = Some(*interest);
                },
                Request::Modify { interest, .. } => {
                    self.watched = Some(*interest);
                },
                Request::Delete { .. } => {
                    self.watched = None;
                },
            }
        }
    }
}

/// An add that follows an add of the same registration, with no delete
/// between them, is out of order, whatever tokens the two carry. The first add
/// is one that the backend accepted, or one that it refused because the
/// resource was registered already.
pub proof fn add_after_add_is_out_of_order(
    life: Lifecycle,
    registration: Registration,
    first: usize,
    second: usize,
    accepted: bool,
)
    requires
        life.source == registration@,
        accepted || life.watched is Some,
    ensures
        !life.after(
            Request::Add { source: registration@, interest: Event::none_spec(first) },
            accepted,
        ).permits(Request::Add { source: registration@, interest: Event::none_spec(second) }),
{
}

/// Once a registration has been added and then deleted, both with success, a
/// second delete is out of order: the poller holds nothing that it could
/// remove.
pub proof fn delete_after_delete_is_out_of_order(
    life: Lifecycle,
    registration: Registration,
    token: usize,
)
    requires
        life.source == registration@,
    ensures
        !life.after(
            Request::Add { source: registration@, interest: Event::none_spec(token) },
            true,
        ).after(Request::Delete { source: registration@ }, true).permits(
            Request::Delete { source: registration@ },
        ),
{
}

/// Of two modifies that the backend accepted, the later one alone says what
/// the poller watches for: interests do not add up.
pub proof fn last_modify_wins(
    life: Lifecycle,
    registration: Registration,
    earlier: Event,
    later: Event,
)
    requires
        life.source == registration@,
    ensures
        life.after(Request::Modify { source: registration@, interest: earlier }, true).after(
            Request::Modify { source: registration@, interest: later },
            true,
        ).watched == Some(later),
{
}

} // verus!
