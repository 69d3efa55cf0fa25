//! Event descriptors: which readiness conditions are asked for, under which token.

use vstd::prelude::*;

verus! {

/// An interest in readiness, together with the token that the poller hands
/// back with every notification about the resource.
#[derive(Clone, Copy, Debug, PartialEq, Eq, Structural)]
pub struct Event {
    /// Caller-chosen token; the poller returns it verbatim.
    pub key: usize,
    /// Whether readability is asked for.
    pub readable: bool,
    /// Whether writability is asked for.
    pub writable: bool,
}

impl Event {
    /// The descriptor that carries `key` and asks for no readiness condition.
    pub open spec fn none_spec(key: usize) -> Event {
        Event { key, readable: false, writable: false }
    }

    /// Calls `polling::Event::none` and keeps the three public fields of what
    /// it returns. Trusted: the outside constructor stores the key it is given
    /// and clears both the readable and the writable flag.
    #[verifier::external_body]
    pub(crate) fn none(key: usize) -> (event: Event)
        ensures
            event == Event::none_spec(key),
    {
        let made = polling::Event::none(key);
        Event { key: made.key, readable: made.readable, writable: made.writable }
    }
}

} // verus!
