//! Publish-subscribe for relayed messages: a send is handed to every subscriber.

use vstd::prelude::*;
use std::collections::HashMap;
use crate::error::{ErrorContext, ThesRemoteErr};
use crate::service_map::ServiceMap;
use crate::wire_format::ServiceID;

verus! {

broadcast use vstd::std_specs::hash::group_hash_axioms;

/// Relays sends for its services to several subscribers, each known by its id. Only sends are
/// supported: a call needs one response, and no subscriber can be chosen to give it, so calls
/// are refused with an error the remote is told about.
#[derive(Debug)]
pub struct PubSub<S> {
    services: Vec<ServiceID>,
    subscribers: HashMap<usize, S>,
}

impl<S> PubSub<S> {
    /// The services relayed.
    pub closed spec fn service_ids(&self) -> Seq<ServiceID> {
        self.services@
    }

    /// The subscribers, by id.
    pub closed spec fn subscribed(&self) -> Map<usize, S> {
        self.subscribers@
    }

    /// A `PubSub` for the given services, without subscribers.
    pub fn new(services: Vec<ServiceID>) -> (r: Self)
        ensures
            r.service_ids() == services@,
            r.subscribed() == Map::<usize, S>::empty(),
    {
        PubSub { services, subscribers: HashMap::new() }
    }

    /// Adds a subscriber, replacing one with the same id.
    pub fn subscribe(&mut self, id: usize, sub: S)
        ensures
            final(self).subscribed() == old(self).subscribed().insert(id, sub),
            final(self).service_ids() == old(self).service_ids(),
    {
        self.subscribers.insert(id, sub);
    }

    /// Removes the subscriber with the given id, if there is one.
    pub fn unsubscribe(&mut self, id: usize)
        ensures
            final(self).subscribed() == old(self).subscribed().remove(id),
            final(self).service_ids() == old(self).service_ids(),
    {
        self.subscribers.remove(&id);
    }

    /// The ids of the subscribers a send is handed to: each one once, in no particular order.
    pub fn subscriber_ids(&self) -> (r: Vec<usize>)
        ensures
            r@.to_set() == self.subscribed().dom(),
            r@.no_duplicates(),
    {
        let mut v: Vec<usize> = Vec::new();
        for k in iter: self.subscribers.keys()
            invariant
                v@.len() == iter.index(),
                forall|j: int| 0 <= j < iter.index() ==> v@[j] == *iter.seq()[j],
                iter.seq().unref().to_set() == self.subscribers@.dom(),
                iter.seq().no_duplicates(),
                iter.index() == iter.seq().len() ==> v@.to_set() == self.subscribed().dom()
                    && v@.no_duplicates(),
        {
            v.push(*k);
            assert(iter.index() + 1 == iter.seq().len() ==> v@ =~= iter.seq().unref());
        }
        v
    }

    /// The subscriber with the given id.
    pub fn subscriber(&self, id: usize) -> (r: Option<&S>)
        ensures
            match r {
                Some(s) => self.subscribed().contains_key(id) && *s == self.subscribed()[id],
                None => !self.subscribed().contains_key(id),
            },
    {
        self.subscribers.get(&id)
    }

    /// A call to a broadcast service: always refused.
    pub fn call_service(&self, ctx: ErrorContext) -> (r: Result<(), ThesRemoteErr>)
        ensures
            r == Err::<(), ThesRemoteErr>(ThesRemoteErr::PubSubNoCall { ctx }),
    {
        Err(ThesRemoteErr::PubSubNoCall { ctx })
    }
}

impl<S> ServiceMap for PubSub<S> {
    open spec fn service_list(&self) -> Seq<ServiceID> {
        self.service_ids()
    }

    open spec fn backpressured(&self) -> bool {
        false
    }

    fn services(&self) -> (r: Vec<ServiceID>) {
        self.services.clone()
    }

    /// Messages are relayed, not processed here: no back pressure.
    fn apply_backpressure(&self) -> (r: bool) {
        false
    }
}

} // verus!
