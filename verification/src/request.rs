//! The calls that a registration asks of a polling backend.

use vstd::prelude::*;
use crate::event::Event;
use crate::waitable::Waitable;

verus! {

/// One call on the polling backend, as a value.
///
/// The backend answers each with success or with an I/O error of its own.
#[derive(Clone, Copy, Debug, PartialEq, Eq, Structural)]
pub enum Request {
    /// Start watching `source`, reporting under `interest.key`.
    Add { source: Waitable, interest: Event },
    /// Replace what is watched on `source` by `interest`.
    Modify { source: Waitable, interest: Event },
    /// Stop watching `source`.
    Delete { source: Waitable },
}

impl Request {
    /// The resource that the call is about.
    pub open spec fn source_spec(self) -> Waitable {
        match self {
            Request::Add { source, .. } => source,
            Request::Modify { source, .. } => source,
            Request::Delete { source } => source,
        }
    }

    /// The resource that the call is about.
    pub fn source(&self) -> (source: Waitable)
        ensures
            source == self.source_spec(),
    {
        match self {
            Request::Add { source, .. } => *source,
            Request::Modify { source, .. } => *source,
            Request::Delete { source } => *source,
        }
    }
}

} // verus!
