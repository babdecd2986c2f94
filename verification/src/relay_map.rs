//! Services relayed to a backend provider over another connection.

use vstd::prelude::*;
use crate::error::{ErrorContext, ThesRemoteErr};
use crate::peer::{CallResponse, Peer, Response};
use crate::service_map::ServiceMap;
use crate::text::owned;
use crate::wire_format::{ConnID, ServiceID, WireFormat};

verus! {

/// Relays its services to a backend provider, reached through `handler`.
#[derive(Debug)]
pub struct RelayMap<H> {
    handler: H,
    services: Vec<ServiceID>,
}

impl<H> RelayMap<H> {
    /// The handler the services are relayed to.
    pub closed spec fn relay(&self) -> H {
        self.handler
    }

    /// The services relayed.
    pub closed spec fn service_ids(&self) -> Seq<ServiceID> {
        self.services@
    }

    /// A relay map sending the given services to `handler`.
    pub fn new(handler: H, services: Vec<ServiceID>) -> (r: Self)
        ensures
            r.relay() == handler,
            r.service_ids() == services@,
    {
        RelayMap { handler, services }
    }

    /// The handler the services are relayed to.
    pub fn handler(&self) -> (r: &H)
        ensures
            *r == self.relay(),
    {
        &self.handler
    }

    /// The error when the provider cannot be reached for a relayed call: the connection to it
    /// is gone.
    pub fn relay_gone(ctx: ErrorContext, relay_id: usize, relay_name: Option<String>) -> (r: ThesRemoteErr)
        ensures
            r == (ThesRemoteErr::RelayGone {
                ctx: ErrorContext { context: r->RelayGone_ctx.context, ..ctx },
                relay_id,
                relay_name,
            }),
            r->RelayGone_ctx.context is Some,
            r->RelayGone_ctx.context->0@ == "Process incoming Call to relay"@,
    {
        let mut ctx = ctx;
        ctx.context = Some(owned("Process incoming Call to relay"));
        ThesRemoteErr::RelayGone { ctx, relay_id, relay_name }
    }

    /// The outcome of relaying a send: nothing to answer when the handler took the message;
    /// when it could not (its actor is gone), the error in the context of the delivery.
    pub fn send_outcome<W>(delivered: bool, ctx: ErrorContext) -> (r: Result<Response<W>, ThesRemoteErr>)
        ensures
            delivered ==> r matches Ok(Response::Nothing),
            !delivered ==> r == Err::<Response<W>, ThesRemoteErr>(ThesRemoteErr::HandlerDead { ctx }),
    {
        if delivered {
            Ok(Response::Nothing)
        } else {
            Err(ThesRemoteErr::HandlerDead { ctx })
        }
    }

    /// What goes back to the caller of a relayed call with connection id `cid`, once the
    /// provider answered: its response, given back the caller's connection id; or, when the
    /// provider reported an error (`Err` holds the serialized error), that error in a message
    /// for the caller.
    pub fn relay_response<W: WireFormat>(cid: ConnID, received: Result<W, Vec<u8>>) -> (r: Response<W>)
        requires
            received matches Ok(w) ==> w.wf(),
        ensures
            received is Ok ==> r is CallResponse && {
                let w = r->CallResponse_0.message();
                let v = received->Ok_0;
                &&& w.wf()
                &&& w.spec_cid() == cid@
                &&& w.spec_sid() == v.spec_sid()
                &&& w.spec_msg() == v.spec_msg()
                &&& w.spec_len() == v.spec_len()
            },
            received is Err ==> r is WireFormat && {
                let w = r->WireFormat_0;
                &&& w.wf()
                &&& w.spec_sid() == 0
                &&& w.spec_cid() == cid@
                &&& w.spec_msg() == received->Err_0@
            },
    {
        match received {
            Ok(resp) => {
                let mut resp = resp;
                resp.set_cid(cid);
                Response::CallResponse(CallResponse::new(resp))
            },
            Err(serialized) => Response::WireFormat(Peer::prep_error(cid, serialized.as_slice())),
        }
    }
}

impl<H> ServiceMap for RelayMap<H> {
    open spec fn service_list(&self) -> Seq<ServiceID> {
        self.service_ids()
    }

    open spec fn backpressured(&self) -> bool {
        false
    }

    fn services(&self) -> (r: Vec<ServiceID>) {
        self.services.clone()
    }

    /// Messages are relayed, not processed here: no back pressure.
    fn apply_backpressure(&self) -> (r: bool) {
        false
    }
}

} // verus!
