//! The interface through which a peer finds out which services a service map provides.

use vstd::prelude::*;
use crate::wire_format::ServiceID;

verus! {

/// What the peer uses to deliver messages: a set of services, handled together. The delivery
/// itself (deserializing and calling the handling actor) is done by the implementor.
pub trait ServiceMap {
    /// The services provided by this service map.
    spec fn service_list(&self) -> Seq<ServiceID>;

    /// The services provided by this service map.
    fn services(&self) -> (r: Vec<ServiceID>)
        ensures
            r@ == self.service_list(),
    ;

    /// Whether the peer should apply back pressure for this service map.
    spec fn backpressured(&self) -> bool;

    /// Whether the peer should apply back pressure for this service map: generally true when
    /// requests are processed locally and false when they are relayed.
    fn apply_backpressure(&self) -> (r: bool)
        ensures
            r == self.backpressured(),
    ;
}

} // verus!
