//! The kind of a message, as read from its service id and connection id.

use vstd::prelude::*;

verus! {

/// Type of message.
#[derive(Debug, Copy, Clone, PartialEq, Eq, Structural)]
pub enum WireType {
    ConnectionError,
    IncomingSend,
    IncomingCall,
    CallResponse,
}

/// The kind of a message with service id `sid` and connection id `cid`: a null service id
/// marks a connection error, a full one a response to a call; otherwise a null connection id
/// marks a send and any other a call.
pub open spec fn wire_type_of(sid: u64, cid: u64) -> WireType {
    if sid == 0 {
        WireType::ConnectionError
    } else if sid == u64::MAX {
        WireType::CallResponse
    } else if cid == 0 {
        WireType::IncomingSend
    } else {
        WireType::IncomingCall
    }
}

/// The kind of every message, by its ids: a null service id is a connection error, whatever
/// the connection id; the full service id is a call response, whatever the connection id;
/// any other service id is a send with a null connection id and a call with any other.
pub proof fn law_wire_types(sid: u64, cid: u64)
    ensures
        sid == 0 ==> wire_type_of(sid, cid) == WireType::ConnectionError,
        sid == u64::MAX ==> wire_type_of(sid, cid) == WireType::CallResponse,
        sid != 0 && sid != u64::MAX && cid == 0 ==> wire_type_of(sid, cid) == WireType::IncomingSend,
        sid != 0 && sid != u64::MAX && cid != 0 ==> wire_type_of(sid, cid) == WireType::IncomingCall,
        wire_type_of(sid, cid) == WireType::CallResponse <==> sid == u64::MAX,
        wire_type_of(sid, cid) == WireType::ConnectionError <==> sid == 0,
{
}

} // verus!
