//! The state a peer keeps about its connection: which services it provides, which of its
//! outgoing calls await a response, the connection ids it hands out and whether the connection
//! is closed. Every handler of the peer is a step on this state.

use vstd::prelude::*;
use std::collections::HashMap;
use crate::error::{ErrorContext, ThesRemoteErr};
use crate::service_map::ServiceMap;
use crate::text::{decimal, owned, push_decimal, push_str};
use crate::wire_format::{ConnID, ServiceID, WireErr, WireFormat, WireType, wire_type_of};
use crate::wire_format::wire_err::wire_err_text;
use super::call::Call;
use super::connection_error::ConnectionError;
use super::incoming::{IncomingCall, IncomingSend};
use super::messages::CloseConnection;
use super::peer_event::PeerEvent;

verus! {

broadcast use vstd::std_specs::hash::group_hash_axioms;

/// Which service map handles a service, and whether back pressure applies to its calls.
#[derive(Debug, Clone, Copy, PartialEq, Eq)]
pub struct Provider {
    pub sm: usize,
    pub apply_backpressure: bool,
}

/// How a peer identifies itself in log output: `Peer: id: <id>`, followed by `, name: <name>`
/// when it has a name.
pub open spec fn identify_text(id: usize, name: Option<Seq<char>>) -> Seq<char> {
    match name {
        Some(n) => "Peer: id: "@ + decimal(id as nat) + ", name: "@ + n,
        None => "Peer: id: "@ + decimal(id as nat),
    }
}

/// The connection id handed out when the counter stands at `counter`: the counter itself, but
/// never zero (zero marks a send): then the next one.
pub open spec fn next_cid(counter: u64) -> u64 {
    if counter == 0 {
        1
    } else {
        counter
    }
}

/// The counter after handing out a connection id from `counter`; it wraps around.
pub open spec fn next_counter(counter: u64) -> u64 {
    if counter == 0 {
        2
    } else {
        counter.wrapping_add(1)
    }
}

/// What the peer does with an incoming call.
#[derive(Debug)]
pub enum CallRoute {
    /// The connection is closed: the call is dropped, with its back pressure slot.
    Ignore,
    /// The call cannot be delivered: the error is handled as a request error.
    Fail(ThesRemoteErr),
    /// The call goes to the service map of `provider`, with `ctx` as its error context. The back
    /// pressure slot is kept until the response is sent when `keep_permit`; otherwise it is
    /// given back now.
    Deliver { provider: Provider, keep_permit: bool, ctx: ErrorContext },
}

impl CallRoute {
    /// Whether the back pressure slot taken for the call stays taken: only for a call that is
    /// delivered and keeps its permit; any other call gives its slot back at once.
    pub fn keeps_permit(&self) -> (r: bool)
        ensures
            r == (self is Deliver && self->keep_permit),
    {
        match self {
            CallRoute::Deliver { keep_permit, .. } => *keep_permit,
            _ => false,
        }
    }
}

/// What the peer does with an error message from the remote.
#[derive(Debug)]
pub enum ConnErrOutcome {
    /// The error answers one of our calls: its caller gets it.
    ToCaller(ConnectionError),
    /// Observers are told.
    Event(PeerEvent),
    /// The connection is closed: the message is dropped.
    Ignore,
}

/// What the remote is told about an error in handling one of its requests, and whether the
/// connection is closed afterwards, by kind of error. Errors of the other kinds are never
/// reported to the remote.
pub open spec fn reply_for(err: ThesRemoteErr, sid: Option<ServiceID>, cid: ConnID) -> Option<(ConnectionError, bool)> {
    match err {
        ThesRemoteErr::Deserialize { .. } => Some((ConnectionError::Deserialize { sid, cid: Some(cid) }, false)),
        ThesRemoteErr::Spawn { .. } => Some((ConnectionError::InternalServerError { sid, cid: Some(cid) }, true)),
        ThesRemoteErr::RelayGone { .. } => Some((ConnectionError::InternalServerError { sid, cid: Some(cid) }, false)),
        ThesRemoteErr::NoHandler { .. } => Some((ConnectionError::InternalServerError { sid, cid: Some(cid) }, false)),
        ThesRemoteErr::HandlerDead { .. } => Some((ConnectionError::InternalServerError { sid, cid: Some(cid) }, false)),
        ThesRemoteErr::Serialize { .. } => Some((ConnectionError::InternalServerError { sid, cid: Some(cid) }, false)),
        ThesRemoteErr::UnknownService { .. } => Some((ConnectionError::UnknownService { sid, cid: Some(cid) }, false)),
        ThesRemoteErr::PubSubNoCall { .. } => Some((ConnectionError::PubSubNoCall { sid, cid: Some(cid) }, false)),
        _ => None,
    }
}

/// Whether `e`, with `close` telling whether the connection is closed afterwards, is what the
/// remote is told about `err`: a failure of the wire format layer is reported as such, with the
/// message of the wire error, and the connection is closed since the stream can no longer be
/// trusted; the other kinds as `reply_for` says.
pub open spec fn is_reply(err: ThesRemoteErr, sid: Option<ServiceID>, cid: ConnID, e: ConnectionError, close: bool) -> bool {
    match err {
        ThesRemoteErr::WireFormat { source, .. } => {
            &&& e is DeserializeWireFormat
            &&& e->DeserializeWireFormat_context@ == wire_err_text(source)
            &&& close
        },
        _ => reply_for(err, sid, cid) == Some((e, close)),
    }
}

/// Whether an error that happened in handling a request of the remote can be reported to it:
/// it happened in a call (its context has a connection id) and is of a kind the remote can be
/// told about; or it happened in a send, which gets no feedback.
pub open spec fn reportable(err: ThesRemoteErr) -> bool {
    err.ctx_of() is Some && err.ctx_of()->0.cid is Some ==> err is WireFormat || reply_for(
        err,
        err.ctx_of()->0.sid,
        err.ctx_of()->0.cid->0,
    ) is Some
}

/// How the peer handles an error in handling a request: observers always see it; when the
/// request was a call and the connection is open, the remote gets an error message for its
/// connection id, after which the connection may have to be closed.
#[derive(Debug)]
pub struct ErrorReport {
    pub event: PeerEvent,
    pub reply: Option<(ConnID, ConnectionError)>,
    pub close: bool,
}

/// The state of a peer: its identity, the services it provides, its outgoing calls awaiting a
/// response (by connection id, with their service id), the counter for new connection ids, and
/// whether the connection is closed.
#[derive(Debug)]
pub struct Peer {
    id: usize,
    name: Option<String>,
    closed: bool,
    conn_id_counter: u64,
    services: HashMap<u64, Provider>,
    responses: HashMap<u64, u64>,
}

impl Peer {
    /// The id of the peer's actor.
    pub closed spec fn peer_id(&self) -> usize {
        self.id
    }

    /// The name of the peer's actor.
    pub closed spec fn peer_name(&self) -> Option<String> {
        self.name
    }

    /// Whether the connection is closed.
    pub closed spec fn is_closed(&self) -> bool {
        self.closed
    }

    /// The counter for new connection ids.
    pub closed spec fn counter(&self) -> u64 {
        self.conn_id_counter
    }

    /// The provider of each service, by service id.
    pub closed spec fn providers(&self) -> Map<u64, Provider> {
        self.services@
    }

    /// The outgoing calls awaiting a response: their service id, by connection id.
    pub closed spec fn pending(&self) -> Map<u64, u64> {
        self.responses@
    }

    /// The connection ids of the calls awaiting a response were all handed out from the
    /// counter before it reached its present value: none is zero, and none is the counter or
    /// above, so the next id handed out is not awaited (until the counter wraps around, after
    /// 2^64 calls).
    pub open spec fn wf(&self) -> bool {
        &&& self.counter() >= 1
        &&& forall|k: u64| #[trigger] self.pending().contains_key(k) ==> 1 <= k < self.counter()
    }

    /// Whether `ctx` is the error context this peer makes for the given ids and text.
    pub open spec fn ctx_says(
        &self,
        ctx: ErrorContext,
        sid: Option<ServiceID>,
        cid: Option<ConnID>,
        text: Seq<char>,
    ) -> bool {
        &&& ctx.context is Some
        &&& ctx.context->0@ == text
        &&& ctx.peer_id == Some(self.peer_id())
        &&& ctx.peer_name == self.peer_name()
        &&& ctx.sid == sid
        &&& ctx.cid == cid
    }

    /// A peer for the actor with the given id and name, providing no services and awaiting no
    /// responses. Connection ids start at one: zero is reserved.
    pub fn new(id: usize, name: Option<String>) -> (r: Self)
        ensures
            r.peer_id() == id,
            r.peer_name() == name,
            !r.is_closed(),
            r.counter() == 1,
            r.wf(),
            r.providers() == Map::<u64, Provider>::empty(),
            r.pending() == Map::<u64, u64>::empty(),
    {
        Peer {
            id,
            name,
            closed: false,
            conn_id_counter: 1,
            services: HashMap::new(),
            responses: HashMap::new(),
        }
    }

    /// How a peer with the given id and name identifies itself in log output.
    pub fn identify_addr(id: usize, name: Option<&str>) -> (s: String)
        ensures
            s@ == identify_text(
                id,
                match name {
                    Some(n) => Some(n@),
                    None => None,
                },
            ),
    {
        let mut s = String::new();
        push_str(&mut s, "Peer: id: ");
        push_decimal(&mut s, id as u64);
        if let Some(n) = name {
            push_str(&mut s, ", name: ");
            push_str(&mut s, n);
        }
        s
    }

    /// How this peer identifies itself in log output.
    pub fn identify(&self) -> (s: String)
        ensures
            s@ == identify_text(
                self.peer_id(),
                match self.peer_name() {
                    Some(n) => Some(n@),
                    None => None,
                },
            ),
    {
        match &self.name {
            Some(n) => Self::identify_addr(self.id, Some(n.as_str())),
            None => Self::identify_addr(self.id, None),
        }
    }

    /// An error context for a peer with the given id and name.
    pub fn err_ctx(
        peer_id: usize,
        peer_name: Option<String>,
        sid: Option<ServiceID>,
        cid: Option<ConnID>,
        context: Option<String>,
    ) -> (r: ErrorContext)
        ensures
            r == (ErrorContext { context, peer_id: Some(peer_id), peer_name, sid, cid }),
    {
        ErrorContext { context, peer_id: Some(peer_id), peer_name, sid, cid }
    }

    /// An error context naming this peer, with the given ids and context.
    pub fn ctx(&self, sid: Option<ServiceID>, cid: Option<ConnID>, context: &str) -> (r: ErrorContext)
        ensures
            r.context matches Some(c) && c@ == context@,
            r.peer_id == Some(self.peer_id()),
            r.peer_name == self.peer_name(),
            r.sid == sid,
            r.cid == cid,
    {
        Self::err_ctx(self.id, self.name.clone(), sid, cid, Some(owned(context)))
    }

    /// Registers the services of a service map, which gets the id `sm`. Each service may be
    /// registered once only.
    pub fn register_services<S: ServiceMap>(&mut self, sm: usize, map: &S)
        requires
            forall|i: int| 0 <= i < map.service_list().len() ==> !old(self).providers().contains_key(
                #[trigger] map.service_list()[i]@,
            ),
            forall|i: int, j: int|
                0 <= i < j < map.service_list().len() ==> #[trigger] map.service_list()[i]@
                    != #[trigger] map.service_list()[j]@,
        ensures
            final(self).providers().dom() == old(self).providers().dom() + map.service_list().map_values(
                |s: ServiceID| s@,
            ).to_set(),
            forall|k: u64| #[trigger]
                old(self).providers().contains_key(k) ==> final(self).providers()[k] == old(self).providers()[k],
            forall|i: int| 0 <= i < map.service_list().len() ==> final(self).providers()[
                #[trigger] map.service_list()[i]@] == (Provider { sm, apply_backpressure: map.backpressured() }),
            final(self).peer_id() == old(self).peer_id(),
            final(self).peer_name() == old(self).peer_name(),
            final(self).is_closed() == old(self).is_closed(),
            final(self).counter() == old(self).counter(),
            final(self).pending() == old(self).pending(),
    {
        let sids = map.services();
        let p = Provider { sm, apply_backpressure: map.apply_backpressure() };
        let ghost list = map.service_list();
        let ghost ids = list.map_values(|s: ServiceID| s@);
        let mut n: usize = 0;
        while n < sids.len()
            invariant
                sids@ == list,
                ids == list.map_values(|s: ServiceID| s@),
                p == (Provider { sm, apply_backpressure: map.backpressured() }),
                n <= sids.len(),
                forall|i: int| 0 <= i < list.len() ==> !old(self).providers().contains_key(#[trigger] list[i]@),
                forall|i: int, j: int| 0 <= i < j < list.len() ==> #[trigger] list[i]@ != #[trigger] list[j]@,
                self.providers().dom() == old(self).providers().dom() + ids.take(n as int).to_set(),
                forall|k: u64| #[trigger]
                    old(self).providers().contains_key(k) ==> self.providers()[k] == old(self).providers()[k],
                forall|i: int| 0 <= i < n ==> self.providers()[#[trigger] list[i]@] == p,
                self.id == old(self).id,
                self.name == old(self).name,
                self.closed == old(self).closed,
                self.conn_id_counter == old(self).conn_id_counter,
                self.responses == old(self).responses,
            decreases sids.len() - n,
        {
            let sid = sids[n].inner.id;
            self.services.insert(sid, p);
            proof {
                assert(ids.take(n + 1) =~= ids.take(n as int).push(ids[n as int]));
                assert(ids.take(n + 1).to_set() =~= ids.take(n as int).to_set().insert(sid)) by {
                    ids.take(n as int).lemma_push_to_set_commute(sid);
                }
                assert forall|i: int| 0 <= i < n + 1 implies self.providers()[#[trigger] list[i]@] == p by {
                    if i < n {
                        assert(list[i]@ != list[n as int]@);
                    }
                }
            }
            n = n + 1;
        }
        proof {
            assert(ids.take(n as int) =~= ids);
        }
    }

    /// Stops providing the given services.
    pub fn remove_services(&mut self, sids: &[ServiceID])
        ensures
            final(self).providers() == old(self).providers().remove_keys(
                sids@.map_values(|s: ServiceID| s@).to_set(),
            ),
            final(self).peer_id() == old(self).peer_id(),
            final(self).peer_name() == old(self).peer_name(),
            final(self).is_closed() == old(self).is_closed(),
            final(self).counter() == old(self).counter(),
            final(self).pending() == old(self).pending(),
    {
        let ghost ids = sids@.map_values(|s: ServiceID| s@);
        let mut n: usize = 0;
        while n < sids.len()
            invariant
                ids == sids@.map_values(|s: ServiceID| s@),
                n <= sids.len(),
                self.providers() == old(self).providers().remove_keys(ids.take(n as int).to_set()),
                self.id == old(self).id,
                self.name == old(self).name,
                self.closed == old(self).closed,
                self.conn_id_counter == old(self).conn_id_counter,
                self.responses == old(self).responses,
            decreases sids.len() - n,
        {
            let sid = sids[n].inner.id;
            self.services.remove(&sid);
            proof {
                assert(ids.take(n + 1) =~= ids.take(n as int).push(ids[n as int]));
                ids.take(n as int).lemma_push_to_set_commute(sid);
                assert(self.providers() =~= old(self).providers().remove_keys(ids.take(n + 1).to_set()));
            }
            n = n + 1;
        }
        proof {
            assert(ids.take(n as int) =~= ids);
        }
    }

    /// The provider of a service, if the peer provides it.
    pub fn provider(&self, sid: &ServiceID) -> (r: Option<Provider>)
        ensures
            r == (if self.providers().contains_key(sid@) {
                Some(self.providers()[sid@])
            } else {
                None
            }),
    {
        match self.services.get(&sid.inner.id) {
            Some(p) => Some(*p),
            None => None,
        }
    }

    /// The services this peer provides, each once, in no particular order.
    pub fn list_services(&self) -> (r: Vec<ServiceID>)
        ensures
            r@.map_values(|s: ServiceID| s@).to_set() == self.providers().dom(),
            r@.map_values(|s: ServiceID| s@).no_duplicates(),
    {
        let mut v: Vec<ServiceID> = Vec::new();
        for k in iter: self.services.keys()
            invariant
                v@.len() == iter.index(),
                forall|j: int| 0 <= j < iter.index() ==> v@[j]@ == *iter.seq()[j],
                iter.seq().unref().to_set() == self.services@.dom(),
                iter.seq().no_duplicates(),
                iter.index() == iter.seq().len() ==> v@.map_values(|s: ServiceID| s@).to_set()
                    == self.providers().dom() && v@.map_values(|s: ServiceID| s@).no_duplicates(),
        {
            v.push(ServiceID::from_u64(*k));
            assert(iter.index() + 1 == iter.seq().len() ==> v@.map_values(|s: ServiceID| s@)
                =~= iter.seq().unref());
        }
        v
    }

    /// Hands out a new connection id from the counter. The counter wraps around; zero is
    /// skipped, since it marks a send.
    pub fn next_conn_id(&mut self) -> (cid: ConnID)
        ensures
            cid@ == next_cid(old(self).counter()),
            cid@ != 0,
            old(self).wf() && old(self).counter() < u64::MAX ==> {
                &&& !old(self).pending().contains_key(cid@)
                &&& cid@ < final(self).counter()
                &&& final(self).wf()
            },
            final(self).counter() == next_counter(old(self).counter()),
            final(self).peer_id() == old(self).peer_id(),
            final(self).peer_name() == old(self).peer_name(),
            final(self).is_closed() == old(self).is_closed(),
            final(self).providers() == old(self).providers(),
            final(self).pending() == old(self).pending(),
    {
        let mut cid = self.conn_id_counter;
        self.conn_id_counter = self.conn_id_counter.wrapping_add(1);
        if cid == 0 {
            cid = self.conn_id_counter;
            self.conn_id_counter = self.conn_id_counter.wrapping_add(1);
        }
        ConnID::from_u64(cid)
    }

    /// Prepares an outgoing call: gives its message a new connection id and returns it, to
    /// be sent out. The id is not zero and, while the counter has not wrapped around, no call
    /// still awaiting a response has it. A closed connection takes no calls.
    pub fn prepare_call<W: WireFormat>(&mut self, call: Call<W>) -> (r: Result<W, ThesRemoteErr>)
        requires
            call.message().wf(),
        ensures
            old(self).is_closed() ==> {
                &&& r matches Err(ThesRemoteErr::ConnectionClosed { ctx }) && ctx.context matches Some(
                    c,
                ) && c@ == "Handler<Call> for Peer"@ && ctx.peer_id == Some(old(self).peer_id())
                    && ctx.peer_name == old(self).peer_name() && ctx.sid is None && ctx.cid is None
                &&& *final(self) == *old(self)
            },
            !old(self).is_closed() ==> {
                &&& r matches Ok(w) && w.wf() && w.spec_cid() == next_cid(old(self).counter())
                    && w.spec_sid() == call.message().spec_sid() && w.spec_msg()
                    == call.message().spec_msg() && w.spec_len() == call.message().spec_len()
                &&& final(self).counter() == next_counter(old(self).counter())
                &&& old(self).wf() && old(self).counter() < u64::MAX ==> {
                    &&& !old(self).pending().contains_key(r->Ok_0.spec_cid())
                    &&& r->Ok_0.spec_cid() < final(self).counter()
                    &&& final(self).wf()
                }
                &&& final(self).peer_id() == old(self).peer_id()
                &&& final(self).peer_name() == old(self).peer_name()
                &&& final(self).is_closed() == old(self).is_closed()
                &&& final(self).providers() == old(self).providers()
                &&& final(self).pending() == old(self).pending()
            },
    {
        if self.closed {
            let ctx = self.ctx(None, None, "Handler<Call> for Peer");
            proof {
                reveal_strlit("Handler<Call> for Peer");
            }
            return Err(ThesRemoteErr::ConnectionClosed { ctx });
        }
        let cid = self.next_conn_id();
        let mut wf = call.into_message();
        wf.set_cid(cid);
        Ok(wf)
    }

    /// Records that the call with connection id `cid`, for service `sid`, was sent out and
    /// awaits its response.
    pub fn expect_response(&mut self, cid: ConnID, sid: ServiceID)
        ensures
            final(self).pending() == old(self).pending().insert(cid@, sid@),
            old(self).wf() && 1 <= cid@ < old(self).counter() ==> final(self).wf(),
            final(self).peer_id() == old(self).peer_id(),
            final(self).peer_name() == old(self).peer_name(),
            final(self).is_closed() == old(self).is_closed(),
            final(self).counter() == old(self).counter(),
            final(self).providers() == old(self).providers(),
    {
        self.responses.insert(cid.inner.id, sid.inner.id);
        proof {
            if old(self).wf() && 1 <= cid@ < old(self).counter() {
                assert forall|k: u64| #[trigger] self.pending().contains_key(k) implies 1 <= k < self.counter() by {
                    if k != cid@ {
                        assert(old(self).pending().contains_key(k));
                    }
                }
            }
        }
    }

    /// The call with connection id `cid` timed out: when it still awaits its response, it no
    /// longer does, and the caller is to be told with the returned error.
    pub fn timeout(&mut self, cid: ConnID, sid: ServiceID) -> (r: Option<ConnectionError>)
        ensures
            final(self).pending() == old(self).pending().remove(cid@),
            old(self).pending().contains_key(cid@) ==> r == Some(ConnectionError::Timeout { sid }),
            !old(self).pending().contains_key(cid@) ==> r is None,
            old(self).wf() ==> final(self).wf(),
            final(self).peer_id() == old(self).peer_id(),
            final(self).peer_name() == old(self).peer_name(),
            final(self).is_closed() == old(self).is_closed(),
            final(self).counter() == old(self).counter(),
            final(self).providers() == old(self).providers(),
    {
        match self.responses.remove(&cid.inner.id) {
            Some(_) => Some(ConnectionError::Timeout { sid }),
            None => None,
        }
    }

    /// Where an incoming send goes: nowhere once the connection is closed (`None`); else the
    /// provider of its service, and the error context for its delivery; an unknown service is
    /// an error.
    pub fn incoming_send<W>(&self, msg: &IncomingSend<W>) -> (r: Option<Result<(Provider, ErrorContext), ThesRemoteErr>>)
        ensures
            self.is_closed() ==> r is None,
            !self.is_closed() && self.providers().contains_key(msg.sid@) ==> r is Some && r->0 is Ok
                && r->0->Ok_0.0 == self.providers()[msg.sid@]
                && self.ctx_says(r->0->Ok_0.1, Some(msg.sid), None, "Peer: Handle incoming send"@),
            !self.is_closed() && !self.providers().contains_key(msg.sid@) ==> r is Some && r->0 is Err
                && r->0->Err_0 is UnknownService
                && self.ctx_says(r->0->Err_0.ctx_of()->0, Some(msg.sid), None, "Peer: Handle incoming send"@),
    {
        if self.closed {
            return None;
        }
        let ctx = self.ctx(Some(msg.sid), None, "Peer: Handle incoming send");
        match self.provider(&msg.sid) {
            Some(p) => Some(Ok((p, ctx))),
            None => Some(Err(ThesRemoteErr::UnknownService { ctx })),
        }
    }

    /// The error reported when handing an incoming send to its service map failed: the kind of
    /// the failure (no handler, failed deserialization or failed spawn) in the context of the
    /// delivery.
    pub fn send_service_error(&self, sid: ServiceID, e: &ThesRemoteErr) -> (r: ThesRemoteErr)
        requires
            e is NoHandler || e is Deserialize || e is Spawn,
        ensures
            e is NoHandler ==> r is NoHandler,
            e is Deserialize ==> r is Deserialize,
            e is Spawn ==> r is Spawn,
            r.ctx_of() is Some,
            self.ctx_says(r.ctx_of()->0, Some(sid), None, "sm.send_service"@),
    {
        let ctx = self.ctx(Some(sid), None, "sm.send_service");
        match e {
            ThesRemoteErr::NoHandler { .. } => ThesRemoteErr::NoHandler { ctx },
            ThesRemoteErr::Deserialize { .. } => ThesRemoteErr::Deserialize { ctx },
            _ => ThesRemoteErr::Spawn { ctx },
        }
    }

    /// Where an incoming call goes. A closed connection takes no calls; an unknown service is
    /// an error; otherwise the call goes to the provider of its service, keeping its back
    /// pressure slot when back pressure applies to that provider.
    pub fn incoming_call<W>(&self, msg: &IncomingCall<W>) -> (r: CallRoute)
        ensures
            self.is_closed() ==> r is Ignore,
            !self.is_closed() && !self.providers().contains_key(msg.sid@) ==> r is Fail && r->Fail_0 is UnknownService
                && self.ctx_says(r->Fail_0.ctx_of()->0, Some(msg.sid), Some(msg.cid), "Peer: Handle incoming call"@),
            !self.is_closed() && self.providers().contains_key(msg.sid@) ==> r is Deliver
                && r->provider == self.providers()[msg.sid@]
                && r->keep_permit == (msg.permit && self.providers()[msg.sid@].apply_backpressure)
                && self.ctx_says(r->Deliver_ctx, Some(msg.sid), Some(msg.cid), "Peer: Handle incoming call"@),
    {
        if self.closed {
            return CallRoute::Ignore;
        }
        let ctx = self.ctx(Some(msg.sid), Some(msg.cid), "Peer: Handle incoming call");
        match self.provider(&msg.sid) {
            Some(p) => CallRoute::Deliver {
                provider: p,
                keep_permit: msg.permit && p.apply_backpressure,
                ctx,
            },
            None => CallRoute::Fail(ThesRemoteErr::UnknownService { ctx }),
        }
    }

    /// A response came in for connection id `cid`. Returns whether a call awaited it; that
    /// call no longer does. A response nobody awaits (the call timed out) is dropped.
    pub fn incoming_call_response(&mut self, cid: ConnID) -> (r: bool)
        ensures
            r == old(self).pending().contains_key(cid@),
            final(self).pending() == old(self).pending().remove(cid@),
            old(self).wf() ==> final(self).wf(),
            final(self).peer_id() == old(self).peer_id(),
            final(self).peer_name() == old(self).peer_name(),
            final(self).is_closed() == old(self).is_closed(),
            final(self).counter() == old(self).counter(),
            final(self).providers() == old(self).providers(),
    {
        let r = self.responses.remove(&cid.inner.id).is_some();
        proof {
            if old(self).wf() {
                assert forall|k: u64| #[trigger] self.pending().contains_key(k) implies 1 <= k < self.counter() by {
                    assert(old(self).pending().contains_key(k));
                }
            }
        }
        r
    }

    /// An error message came in from the remote for connection id `cid`, with `parsed` the
    /// error it holds, or `None` when it could not be deserialized. An error answering one of
    /// our calls goes to its caller; any other goes to observers, as does one that could not
    /// be read. Once the connection is closed, error messages are ignored.
    pub fn incoming_conn_err(&mut self, cid: ConnID, parsed: Option<ConnectionError>) -> (r: ConnErrOutcome)
        ensures
            old(self).is_closed() ==> r is Ignore && *final(self) == *old(self),
            !old(self).is_closed() && parsed is None ==> {
                &&& r is Event && r->Event_0 is Error && r->Event_0->Error_0 is Deserialize
                &&& old(self).ctx_says(r->Event_0->Error_0.ctx_of()->0, None, Some(cid), "We received an error message from a remote peer, but couldn't deserialize it"@)
                &&& final(self).pending() == old(self).pending()
            },
            !old(self).is_closed() && parsed is Some && old(self).pending().contains_key(cid@) ==> {
                &&& r == ConnErrOutcome::ToCaller(parsed->0)
                &&& final(self).pending() == old(self).pending().remove(cid@)
            },
            !old(self).is_closed() && parsed is Some && !old(self).pending().contains_key(cid@) ==> {
                &&& r == ConnErrOutcome::Event(PeerEvent::RemoteError(parsed->0))
                &&& final(self).pending() == old(self).pending()
            },
            final(self).peer_id() == old(self).peer_id(),
            final(self).peer_name() == old(self).peer_name(),
            final(self).is_closed() == old(self).is_closed(),
            final(self).counter() == old(self).counter(),
            final(self).providers() == old(self).providers(),
            old(self).wf() ==> final(self).wf(),
    {
        if self.closed {
            return ConnErrOutcome::Ignore;
        }
        match parsed {
            Some(e) => {
                if self.responses.remove(&cid.inner.id).is_some() {
                    ConnErrOutcome::ToCaller(e)
                } else {
                    ConnErrOutcome::Event(PeerEvent::RemoteError(e))
                }
            },
            None => {
                let ctx = self.ctx(
                    None,
                    Some(cid),
                    "We received an error message from a remote peer, but couldn't deserialize it",
                );
                ConnErrOutcome::Event(PeerEvent::Error(ThesRemoteErr::Deserialize { ctx }))
            },
        }
    }

    /// How an error in handling a request is handled (see [`ErrorReport`]).
    pub fn request_error(&self, err: ThesRemoteErr) -> (r: ErrorReport)
        requires
            reportable(err),
        ensures
            r.event == PeerEvent::Error(err),
            !self.is_closed() && err.ctx_of() is Some && err.ctx_of()->0.cid is Some ==> {
                let ctx = err.ctx_of()->0;
                let reply = r.reply->Some_0;
                let (c, e) = reply;
                &&& r.reply is Some
                &&& c == ctx.cid->Some_0
                &&& is_reply(err, ctx.sid, c, e, r.close)
            },
            !(!self.is_closed() && err.ctx_of() is Some && err.ctx_of()->0.cid is Some) ==> r.reply is None
                && !r.close,
            !self.is_closed() && err.ctx_of() is Some && err.ctx_of()->0.cid is Some ==> {
                let ctx = err.ctx_of()->0;
                let reply = r.reply->Some_0;
                let (c, e) = reply;
                &&& (err is Spawn || err is WireFormat) <==> r.close
                &&& err is UnknownService ==> e == ConnectionError::UnknownService { sid: ctx.sid, cid: ctx.cid }
                &&& err is Deserialize ==> e == ConnectionError::Deserialize { sid: ctx.sid, cid: ctx.cid }
                &&& err is PubSubNoCall ==> e == ConnectionError::PubSubNoCall { sid: ctx.sid, cid: ctx.cid }
                &&& (err is Spawn || err is RelayGone || err is NoHandler || err is HandlerDead
                    || err is Serialize) ==> e == ConnectionError::InternalServerError { sid: ctx.sid, cid: ctx.cid }
                &&& err is WireFormat ==> e is DeserializeWireFormat
                    && e->DeserializeWireFormat_context@ == wire_err_text(err->WireFormat_source)
            },
    {
        let target = match err.ctx() {
            Some(ctx) => match ctx.cid {
                Some(cid) => Some((ctx.sid, cid)),
                None => None,
            },
            None => None,
        };
        let reply = match target {
            Some((sid, cid)) => {
                if self.closed {
                    None
                } else {
                    match &err {
                        ThesRemoteErr::Deserialize { .. } => Some((ConnectionError::Deserialize { sid, cid: Some(cid) }, false)),
                        ThesRemoteErr::Spawn { .. } => Some((ConnectionError::InternalServerError { sid, cid: Some(cid) }, true)),
                        ThesRemoteErr::RelayGone { .. } => Some((ConnectionError::InternalServerError { sid, cid: Some(cid) }, false)),
                        ThesRemoteErr::NoHandler { .. } => Some((ConnectionError::InternalServerError { sid, cid: Some(cid) }, false)),
                        ThesRemoteErr::HandlerDead { .. } => Some((ConnectionError::InternalServerError { sid, cid: Some(cid) }, false)),
                        ThesRemoteErr::Serialize { .. } => Some((ConnectionError::InternalServerError { sid, cid: Some(cid) }, false)),
                        ThesRemoteErr::UnknownService { .. } => Some((ConnectionError::UnknownService { sid, cid: Some(cid) }, false)),
                        ThesRemoteErr::PubSubNoCall { .. } => Some((ConnectionError::PubSubNoCall { sid, cid: Some(cid) }, false)),
                        ThesRemoteErr::WireFormat { source, .. } => Some(
                            (ConnectionError::DeserializeWireFormat { context: source.to_message() }, true),
                        ),
                        _ => None,
                    }
                }
            },
            None => None,
        };
        match (target, reply) {
            (Some((_, cid)), Some((e, close))) => ErrorReport { event: PeerEvent::Error(err), reply: Some((cid, e)), close },
            _ => ErrorReport { event: PeerEvent::Error(err), reply: None, close: false },
        }
    }

    /// Closes the connection: no more calls are taken, the services are no longer provided and
    /// no response is awaited any more. Returns the event for observers: `ClosedByRemote` when
    /// the remote closed it, `Closed` otherwise.
    pub fn close_connection(&mut self, msg: &CloseConnection) -> (r: PeerEvent)
        ensures
            final(self).is_closed(),
            final(self).providers() == Map::<u64, Provider>::empty(),
            final(self).pending() == Map::<u64, u64>::empty(),
            old(self).wf() ==> final(self).wf(),
            final(self).peer_id() == old(self).peer_id(),
            final(self).peer_name() == old(self).peer_name(),
            final(self).counter() == old(self).counter(),
            r == (if msg.remote {
                PeerEvent::ClosedByRemote
            } else {
                PeerEvent::Closed
            }),
    {
        self.closed = true;
        self.services.clear();
        self.responses.clear();
        if msg.remote {
            PeerEvent::ClosedByRemote
        } else {
            PeerEvent::Closed
        }
    }

    /// The error for a failure of the incoming stream (failed framing, too large a message or
    /// an I/O error), after which no more messages are read.
    pub fn incoming_wire_error(&self, source: WireErr) -> (r: ThesRemoteErr)
        ensures
            r is WireFormat,
            r->WireFormat_source == source,
            self.ctx_says(r.ctx_of()->0, None, None, "Deserialize Incoming message or IO error."@),
    {
        let ctx = self.ctx(None, None, "Deserialize Incoming message or IO error.");
        ThesRemoteErr::WireFormat { ctx, source }
    }

    /// The message that reports a connection error to the remote: the service id is null, which
    /// marks it as an error, the connection id is that of the failed request, and the payload
    /// is the serialized error.
    pub fn prep_error<W: WireFormat>(cid: ConnID, serialized: &[u8]) -> (r: W)
        ensures
            r.wf(),
            r.spec_sid() == 0,
            r.spec_cid() == cid@,
            r.spec_msg() == serialized@,
    {
        let mut msg = W::with_capacity(serialized.len());
        msg.set_sid(ServiceID::null());
        msg.set_cid(cid);
        msg.write(serialized);
        msg
    }

    /// The error when a message cannot be sent out because the connection is closed.
    pub fn send_closed_error() -> (r: ThesRemoteErr)
        ensures
            r is ConnectionClosed,
            r->ConnectionClosed_ctx.context is Some,
            r->ConnectionClosed_ctx.context->0@ == "register_relayed_services"@,
            r->ConnectionClosed_ctx.peer_id is None,
            r->ConnectionClosed_ctx.peer_name is None,
            r->ConnectionClosed_ctx.sid is None,
            r->ConnectionClosed_ctx.cid is None,
    {
        let mut ctx = ErrorContext::default();
        ctx.context = Some(owned("register_relayed_services"));
        ThesRemoteErr::ConnectionClosed { ctx }
    }

    /// The error when sending out the message with the given ids failed in the wire format
    /// layer.
    pub fn send_failed_error(&self, sid: ServiceID, cid: ConnID, source: WireErr) -> (r: ThesRemoteErr)
        ensures
            r is WireFormat,
            r->WireFormat_source == source,
            self.ctx_says(r.ctx_of()->0, Some(sid), Some(cid), "Sending out WireFormat"@),
    {
        let ctx = self.ctx(Some(sid), Some(cid), "Sending out WireFormat");
        ThesRemoteErr::WireFormat { ctx, source }
    }
}

/// Two connection ids handed out one after the other differ, also when the counter wraps
/// around.
pub proof fn law_consecutive_conn_ids_differ(counter: u64)
    ensures
        next_cid(next_counter(counter)) != next_cid(counter),
        next_cid(counter) != 0,
{
}

/// A call prepared by a peer, for a service id that is neither null nor full, is taken by the
/// remote for an incoming call: its connection id is never null.
pub proof fn law_prepared_call_is_incoming_call(sid: u64, counter: u64)
    requires
        sid != 0,
        sid != u64::MAX,
    ensures
        wire_type_of(sid, next_cid(counter)) == WireType::IncomingCall,
{
}

/// A message made by `prep_error` is taken by the remote for a connection error, whatever its
/// connection id.
pub proof fn law_error_message_is_connection_error(cid: u64)
    ensures
        wire_type_of(0, cid) == WireType::ConnectionError,
{
}

/// What the remote is told about an error in one of its calls, and whether the connection is
/// closed after: only a failed spawn (no more requests can be processed) and a failure of the
/// wire format (the stream can no longer be trusted) close it; a call to an unknown service, a
/// failed deserialization of the actor message, a missing or dead handler, a gone relay, a
/// failed serialization of the response and a call to a broadcast service leave it open. An
/// unknown service, a failed deserialization and a broadcast service are named as such to the
/// remote; the other failures are internal errors of this side.
pub proof fn law_request_error_replies(err: ThesRemoteErr, sid: Option<ServiceID>, cid: ConnID, e: ConnectionError, close: bool)
    requires
        is_reply(err, sid, cid, e, close),
    ensures
        close <==> (err is Spawn || err is WireFormat),
        err is UnknownService ==> (e == (ConnectionError::UnknownService { sid, cid: Some(cid) })),
        err is Deserialize ==> (e == (ConnectionError::Deserialize { sid, cid: Some(cid) })),
        err is PubSubNoCall ==> (e == (ConnectionError::PubSubNoCall { sid, cid: Some(cid) })),
        (err is Spawn || err is RelayGone || err is NoHandler || err is HandlerDead || err is Serialize)
            ==> (e == (ConnectionError::InternalServerError { sid, cid: Some(cid) })),
        err is WireFormat ==> (e is DeserializeWireFormat),
        !(err is ConnectionClosed || err is Remote || err is Downcast || err is MessageSizeExceeded
            || err is DeserializeWireFormat || err is Io),
{
}

} // verus!
