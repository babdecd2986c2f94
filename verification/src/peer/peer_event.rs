//! Events of the life of a peer, for observers.

use vstd::prelude::*;
use crate::error::ThesRemoteErr;
use super::connection_error::ConnectionError;

verus! {

/// Events that can happen during the lifecycle of the peer. After `Closed` or
/// `ClosedByRemote` the connection is lost and can no longer be used.
#[derive(Debug, Clone, PartialEq, Eq)]
pub enum PeerEvent {
    /// The connection is closed. It can no longer be used.
    Closed,
    /// The remote endpoint closed the connection. It can no longer be used.
    ClosedByRemote,
    /// A remote endpoint to which we relayed messages is no longer reachable.
    RelayDisappeared(usize),
    /// An error happened while handling messages on the connection, which could not be returned
    /// to a caller since no local method call triggered it.
    Error(ThesRemoteErr),
    /// The remote endpoint signals that it encountered an error while handling one of our
    /// messages.
    RemoteError(ConnectionError),
}

} // verus!
