//! The control messages a peer accepts besides calls and responses.

use vstd::prelude::*;
use crate::error::ThesRemoteErr;
use crate::wire_format::ServiceID;

verus! {

/// Tells the peer to close the connection. `remote` tells whether the remote closed it, which
/// decides the event observers see (`ClosedByRemote` rather than `Closed`).
#[derive(Debug, Clone, PartialEq, Eq)]
pub struct CloseConnection {
    pub remote: bool,
    pub reason: String,
}

/// Tells the peer to stop providing some services.
#[derive(Debug, Clone, PartialEq, Eq)]
pub struct RemoveServices {
    pub services: Vec<ServiceID>,
}

/// Tells the peer to start providing the services of a service map, or to change the service
/// map that handles them.
#[derive(Debug)]
pub struct AddServices<S> {
    pub sm: S,
}

/// Asks the peer for the list of services it provides.
#[derive(Debug, Clone, Copy, PartialEq, Eq)]
pub struct ListServices;

/// An error that happened in processing a request of the remote, handed to the peer so it can
/// report it to observers and, when the request was a call, to the remote.
#[derive(Debug, Clone, PartialEq, Eq)]
pub struct RequestError {
    pub error: ThesRemoteErr,
}

impl From<ThesRemoteErr> for RequestError {
    fn from(error: ThesRemoteErr) -> (r: Self) {
        RequestError { error }
    }
}

impl vstd::std_specs::convert::FromSpecImpl<ThesRemoteErr> for RequestError {
    open spec fn obeys_from_spec() -> bool {
        true
    }

    open spec fn from_spec(error: ThesRemoteErr) -> RequestError {
        RequestError { error }
    }
}

} // verus!
