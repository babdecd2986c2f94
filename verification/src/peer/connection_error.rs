//! Errors reported to the remote end of a connection.

use vstd::prelude::*;
use crate::text::push_str;
use crate::wire_format::{ConnID, ServiceID, ServiceRegistry};
use crate::wire_format::unique_id::hex_u64;

verus! {

/// All errors that can happen when receiving messages over the wire. These are not returned
/// in a `Result`, since the caller is remote: they are sent back serialized over the wire and
/// broadcast to observers.
#[derive(Debug, Clone, PartialEq, Eq)]
pub enum ConnectionError {
    /// An error deserializing the incoming actor message.
    Deserialize { sid: Option<ServiceID>, cid: Option<ConnID> },
    /// An error deserializing the incoming data.
    DeserializeWireFormat { context: String },
    /// Your request could not be processed. This might mean spawning a future failed or other
    /// errors that are clearly not the fault of the remote peer.
    InternalServerError { sid: Option<ServiceID>, cid: Option<ConnID> },
    /// The connection timed out while waiting for a response to a call. Used internally when
    /// an outgoing call times out.
    Timeout { sid: ServiceID },
    /// We don't provide this service.
    UnknownService { sid: Option<ServiceID>, cid: Option<ConnID> },
    /// The service is broadcast with `PubSub`, which only supports sends, not calls.
    PubSubNoCall { sid: Option<ServiceID>, cid: Option<ConnID> },
}

/// The debug rendering of a service id: `ServiceID: <name> (<hex>)` when a name is registered
/// for it, the bare hexadecimal id otherwise.
pub open spec fn sid_debug_text(sid: u64, names: Map<u64, Seq<char>>) -> Seq<char> {
    if names.contains_key(sid) {
        "ServiceID: "@ + names[sid] + " ("@ + hex_u64(sid) + ")"@
    } else {
        hex_u64(sid)
    }
}

/// The display rendering of a service id: its registered name, or its hexadecimal id.
pub open spec fn sid_display_text(sid: u64, names: Map<u64, Seq<char>>) -> Seq<char> {
    if names.contains_key(sid) {
        names[sid]
    } else {
        hex_u64(sid)
    }
}

/// The debug rendering of an optional service id: `Some(<id>)` or `None`.
pub open spec fn opt_sid_text(sid: Option<ServiceID>, names: Map<u64, Seq<char>>) -> Seq<char> {
    match sid {
        Some(s) => "Some("@ + sid_debug_text(s@, names) + ")"@,
        None => "None"@,
    }
}

/// The debug rendering of an optional connection id: `Some(<hex>)` or `None`.
pub open spec fn opt_cid_text(cid: Option<ConnID>) -> Seq<char> {
    match cid {
        Some(c) => "Some("@ + hex_u64(c@) + ")"@,
        None => "None"@,
    }
}

/// The display text of a connection error.
pub open spec fn connection_error_text(e: ConnectionError, names: Map<u64, Seq<char>>) -> Seq<char> {
    match e {
        ConnectionError::Deserialize { sid, cid } => "Remote failed to deserialize your actor message (sid: "@
            + opt_sid_text(sid, names) + ", cid: "@ + opt_cid_text(cid) + ")."@,
        ConnectionError::DeserializeWireFormat { context } =>
            "Remote failed to deserialize the wire format: "@ + context@,
        ConnectionError::InternalServerError { sid, cid } =>
            "Remote ran into an internal server error (this isn't your fault). More information should be in their logs (sid: "@
            + opt_sid_text(sid, names) + ", cid: "@ + opt_cid_text(cid) + ")."@,
        ConnectionError::Timeout { sid } => "Timed out waiting for a response to a call (sid: "@
            + sid_display_text(sid@, names) + ")."@,
        ConnectionError::UnknownService { sid, .. } =>
            "Remote does not expose the service you are trying to call (sid: "@ + opt_sid_text(sid, names)
            + ")."@,
        ConnectionError::PubSubNoCall { sid, .. } =>
            "Remote broadcasts this message type using thespis_remote::PubSub which does not support the `call` operation. Only `send` is supported (sid: "@
            + opt_sid_text(sid, names) + ")."@,
    }
}

/// Appends the debug rendering of an optional service id.
fn push_opt_sid(s: &mut String, sid: &Option<ServiceID>, registry: &ServiceRegistry)
    ensures
        final(s)@ == old(s)@ + opt_sid_text(*sid, registry.names()),
{
    match sid {
        Some(x) => {
            push_str(s, "Some(");
            let t = x.to_debug_string(registry);
            push_str(s, t.as_str());
            push_str(s, ")");
        },
        None => push_str(s, "None"),
    }
}

/// Appends the debug rendering of an optional connection id.
fn push_opt_cid(s: &mut String, cid: &Option<ConnID>)
    ensures
        final(s)@ == old(s)@ + opt_cid_text(*cid),
{
    match cid {
        Some(x) => {
            push_str(s, "Some(");
            let t = x.to_hex_string();
            push_str(s, t.as_str());
            push_str(s, ")");
        },
        None => push_str(s, "None"),
    }
}

impl ConnectionError {
    /// The display text of this error, with service names from `registry`.
    pub fn to_display_string(&self, registry: &ServiceRegistry) -> (s: String)
        ensures
            s@ == connection_error_text(*self, registry.names()),
    {
        let mut s = String::new();
        match self {
            ConnectionError::Deserialize { sid, cid } => {
                push_str(&mut s, "Remote failed to deserialize your actor message (sid: ");
                push_opt_sid(&mut s, sid, registry);
                push_str(&mut s, ", cid: ");
                push_opt_cid(&mut s, cid);
                push_str(&mut s, ").");
            },
            ConnectionError::DeserializeWireFormat { context } => {
                push_str(&mut s, "Remote failed to deserialize the wire format: ");
                push_str(&mut s, context.as_str());
            },
            ConnectionError::InternalServerError { sid, cid } => {
                push_str(
                    &mut s,
                    "Remote ran into an internal server error (this isn't your fault). More information should be in their logs (sid: ",
                );
                push_opt_sid(&mut s, sid, registry);
                push_str(&mut s, ", cid: ");
                push_opt_cid(&mut s, cid);
                push_str(&mut s, ").");
            },
            ConnectionError::Timeout { sid } => {
                push_str(&mut s, "Timed out waiting for a response to a call (sid: ");
                let t = sid.to_display_string(registry);
                push_str(&mut s, t.as_str());
                push_str(&mut s, ").");
            },
            ConnectionError::UnknownService { sid, .. } => {
                push_str(&mut s, "Remote does not expose the service you are trying to call (sid: ");
                push_opt_sid(&mut s, sid, registry);
                push_str(&mut s, ").");
            },
            ConnectionError::PubSubNoCall { sid, .. } => {
                push_str(
                    &mut s,
                    "Remote broadcasts this message type using thespis_remote::PubSub which does not support the `call` operation. Only `send` is supported (sid: ",
                );
                push_opt_sid(&mut s, sid, registry);
                push_str(&mut s, ").");
            },
        }
        assert(s@ =~= connection_error_text(*self, registry.names()));
        s
    }
}

} // verus!
