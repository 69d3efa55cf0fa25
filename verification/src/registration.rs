//! The registration itself.

use vstd::prelude::*;
use crate::event::Event;
use crate::request::Request;
use crate::waitable::Waitable;

verus! {

/// Borrowed knowledge of one waitable resource, for the use of a reactor.
///
/// A registration never changes after it is made, so it can be read from
/// several threads at once. It keeps no record of whether the resource is
/// currently known to a poller: its owner does.
///
/// Whoever makes a registration promises that the resource is valid and stays
/// so, and is released by nobody, for as long as the registration exists.
/// Nothing here can check that promise.
pub struct Registration {
    raw: Waitable,
}

impl View for Registration {
    type V = Waitable;

    /// The resource that the registration refers to.
    closed spec fn view(&self) -> Waitable {
        self.raw
    }
}

impl Registration {
    /// Makes the registration of `raw`. Nothing is done to the resource and
    /// no backend is touched.
    pub fn new(raw: Waitable) -> (registration: Registration)
        ensures
            registration@ == raw,
    {
        Registration { raw }
    }

    /// The resource, as the backend wants it when it registers one.
    pub fn raw(&self) -> (raw: &Waitable)
        ensures
            *raw == self@,
    {
        &self.raw
    }

    /// The resource, as the backend wants it when it changes or drops a
    /// registration.
    pub fn source(&self) -> (source: &Waitable)
        ensures
            *source == self@,
    {
        &self.raw
    }

    /// The debug rendering: the text that shows the resource, and nothing
    /// else. It reads the registration and changes nothing.
    pub fn fmt(&self) -> (text: String)
        ensures
            text@ == self@.rendering(),
    {
        self.raw.describe()
    }

    /// The call that enters the resource into a poller under `token`, with no
    /// readiness condition asked for yet. Interest is set afterwards, by
    /// [`Registration::modify`].
    pub fn add(&self, token: usize) -> (request: Request)
        ensures
            request == (Request::Add { source: self@, interest: Event::none_spec(token) }),
    {
        Request::Add { source: self.raw, interest: Event::none(token) }
    }

    /// The call that replaces what the poller watches on the resource by
    /// `interest`. Earlier interests leave no trace in it.
    pub fn modify(&self, interest: Event) -> (request: Request)
        ensures
            request == (Request::Modify { source: self@, interest }),
    {
        Request::Modify { source: self.raw, interest }
    }

    /// The call that removes the resource from a poller. The resource itself
    /// is left as it is.
    pub fn delete(&self) -> (request: Request)
        ensures
            request == (Request::Delete { source: self@ }),
    {
        Request::Delete { source: self.raw }
    }
}

} // verus!
