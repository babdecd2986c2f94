//! Incoming messages, sorted by kind before the peer handles them.

use vstd::prelude::*;
use crate::wire_format::{ConnID, ServiceID, WireFormat, WireType, wire_type_of};

verus! {

/// An incoming send: a message for a local service that expects no response.
#[derive(Debug)]
pub struct IncomingSend<W> {
    pub frame: W,
    pub sid: ServiceID,
}

/// An incoming call: a message for a local service that expects a response. `permit` tells
/// whether a back pressure slot was taken for it.
#[derive(Debug)]
pub struct IncomingCall<W> {
    pub frame: W,
    pub sid: ServiceID,
    pub cid: ConnID,
    pub permit: bool,
}

/// The response to one of our outgoing calls.
#[derive(Debug)]
pub struct IncomingCallResponse<W> {
    pub frame: W,
    pub cid: ConnID,
}

/// A connection error from the remote peer: failing to deserialize our messages, failing to
/// relay, an unknown service, ...
#[derive(Debug)]
pub struct IncomingConnErr<W> {
    pub frame: W,
    pub cid: ConnID,
}

/// An incoming message, by kind.
#[derive(Debug)]
pub enum Incoming<W> {
    /// The service id is null: an error report.
    ConnErr(IncomingConnErr<W>),
    /// A service id and a null connection id.
    Send(IncomingSend<W>),
    /// A service id and a connection id.
    Call(IncomingCall<W>),
    /// The service id is full: a response.
    CallResponse(IncomingCallResponse<W>),
}

/// Sorts an incoming message by its kind, as its ids tell it. A call gets no back pressure
/// slot here: `permit` is false until one is taken for it.
pub fn classify<W: WireFormat>(frame: W) -> (r: Incoming<W>)
    requires
        frame.wf(),
    ensures
        match wire_type_of(frame.spec_sid(), frame.spec_cid()) {
            WireType::ConnectionError => r matches Incoming::ConnErr(m) && m.frame == frame
                && m.cid@ == frame.spec_cid(),
            WireType::IncomingSend => r matches Incoming::Send(m) && m.frame == frame && m.sid@
                == frame.spec_sid(),
            WireType::IncomingCall => r matches Incoming::Call(m) && m.frame == frame && m.sid@
                == frame.spec_sid() && m.cid@ == frame.spec_cid() && !m.permit,
            WireType::CallResponse => r matches Incoming::CallResponse(m) && m.frame == frame
                && m.cid@ == frame.spec_cid(),
        },
        frame.spec_sid() == 0 ==> r is ConnErr,
        frame.spec_sid() == u64::MAX ==> r is CallResponse,
        frame.spec_sid() != 0 && frame.spec_sid() != u64::MAX && frame.spec_cid() == 0 ==> r is Send,
        frame.spec_sid() != 0 && frame.spec_sid() != u64::MAX && frame.spec_cid() != 0 ==> r is Call,
{
    let sid = frame.sid();
    let cid = frame.cid();
    match frame.kind() {
        WireType::ConnectionError => Incoming::ConnErr(IncomingConnErr { frame, cid }),
        WireType::IncomingSend => Incoming::Send(IncomingSend { frame, sid }),
        WireType::IncomingCall => Incoming::Call(IncomingCall { frame, sid, cid, permit: false }),
        WireType::CallResponse => Incoming::CallResponse(IncomingCallResponse { frame, cid }),
    }
}

} // verus!
