//! Errors of remote messaging, with the context they happened in.

use vstd::prelude::*;
use crate::peer::ConnectionError;
use crate::text::{decimal, push_decimal, push_str};
use crate::wire_format::{ConnID, ServiceID, ServiceRegistry, WireErr};
use crate::wire_format::unique_id::hex_u64;
use crate::wire_format::wire_err::{size_exceeded_string, size_exceeded_text};

verus! {

/// Where an error happened: a free text context, the peer, and the ids of the message.
#[derive(Debug, Clone, PartialEq, Eq)]
pub struct ErrorContext {
    pub context: Option<String>,
    pub peer_id: Option<usize>,
    pub peer_name: Option<String>,
    pub sid: Option<ServiceID>,
    pub cid: Option<ConnID>,
}

impl Default for ErrorContext {
    /// A context without any information.
    fn default() -> (r: Self)
        ensures
            r.context is None,
            r.peer_id is None,
            r.peer_name is None,
            r.sid is None,
            r.cid is None,
    {
        ErrorContext { context: None, peer_id: None, peer_name: None, sid: None, cid: None }
    }
}

/// How a service id is displayed: its registered name, or its hexadecimal id.
pub open spec fn sid_text(sid: u64, names: Map<u64, Seq<char>>) -> Seq<char> {
    if names.contains_key(sid) {
        names[sid]
    } else {
        hex_u64(sid)
    }
}

/// The context item of an error context's text.
pub open spec fn context_part(ctx: ErrorContext) -> Seq<char> {
    match ctx.context {
        Some(x) => " Context: "@ + x@ + "."@,
        None => Seq::empty(),
    }
}

/// The peer id item of an error context's text.
pub open spec fn peer_id_part(ctx: ErrorContext) -> Seq<char> {
    match ctx.peer_id {
        Some(x) => " peer_id: "@ + decimal(x as nat) + "."@,
        None => Seq::empty(),
    }
}

/// The peer name item of an error context's text.
pub open spec fn peer_name_part(ctx: ErrorContext) -> Seq<char> {
    match ctx.peer_name {
        Some(x) => " peer_name: "@ + x@ + "."@,
        None => Seq::empty(),
    }
}

/// The service id item of an error context's text.
pub open spec fn sid_part(ctx: ErrorContext, names: Map<u64, Seq<char>>) -> Seq<char> {
    match ctx.sid {
        Some(x) => " sid: "@ + sid_text(x@, names) + "."@,
        None => Seq::empty(),
    }
}

/// The connection id item of an error context's text.
pub open spec fn cid_part(ctx: ErrorContext) -> Seq<char> {
    match ctx.cid {
        Some(x) => " cid: "@ + hex_u64(x@) + "."@,
        None => Seq::empty(),
    }
}

/// The display text of an error context: one ` <field>: <value>.` item per field present,
/// in the order context, peer id, peer name, service id, connection id.
pub open spec fn context_text(ctx: ErrorContext, names: Map<u64, Seq<char>>) -> Seq<char> {
    context_part(ctx) + peer_id_part(ctx) + peer_name_part(ctx) + sid_part(ctx, names)
        + cid_part(ctx)
}

impl ErrorContext {
    /// The display text of this context.
    pub fn to_display_string(&self, registry: &ServiceRegistry) -> (s: String)
        ensures
            s@ == context_text(*self, registry.names()),
    {
        let mut s = String::new();
        let ghost names = registry.names();
        let ghost c0 = context_part(*self);
        if let Some(x) = &self.context {
            push_str(&mut s, " Context: ");
            push_str(&mut s, x.as_str());
            push_str(&mut s, ".");
        }
        assert(s@ =~= c0);
        let ghost s0 = s@;
        let ghost c1 = peer_id_part(*self);
        if let Some(x) = self.peer_id {
            push_str(&mut s, " peer_id: ");
            push_decimal(&mut s, x as u64);
            push_str(&mut s, ".");
        }
        assert(s@ =~= s0 + c1);
        let ghost s1 = s@;
        let ghost c2 = peer_name_part(*self);
        if let Some(x) = &self.peer_name {
            push_str(&mut s, " peer_name: ");
            push_str(&mut s, x.as_str());
            push_str(&mut s, ".");
        }
        assert(s@ =~= s1 + c2);
        let ghost s2 = s@;
        let ghost c3 = sid_part(*self, names);
        if let Some(x) = &self.sid {
            push_str(&mut s, " sid: ");
            let t = x.to_display_string(registry);
            push_str(&mut s, t.as_str());
            push_str(&mut s, ".");
        }
        assert(s@ =~= s2 + c3);
        let ghost s3 = s@;
        let ghost c4 = cid_part(*self);
        if let Some(x) = &self.cid {
            push_str(&mut s, " cid: ");
            let t = x.to_hex_string();
            push_str(&mut s, t.as_str());
            push_str(&mut s, ".");
        }
        assert(s@ =~= s3 + c4);
        assert(s@ =~= context_text(*self, names));
        s
    }
}

/// Errors that can happen in remote messaging.
#[derive(Debug, Clone, PartialEq, Eq)]
#[non_exhaustive]
pub enum ThesRemoteErr {
    /// Cannot use the peer after the connection is closed.
    ConnectionClosed { ctx: ErrorContext },
    /// A remote could not process a message we sent it.
    Remote { ctx: ErrorContext, err: ConnectionError },
    /// Failed to downcast. This indicates an error in this library.
    Downcast { ctx: ErrorContext },
    /// Maximum message size exceeded.
    MessageSizeExceeded {
        /// The context in which the error happened.
        context: String,
        /// The size of the message.
        size: usize,
        /// The maximum allowed message size.
        max_size: usize,
    },
    /// Failed to deserialize an actor message. The message is dropped and the remote is
    /// notified. The connection remains functional.
    Deserialize { ctx: ErrorContext },
    /// Failed to deserialize incoming data. The connection will be closed because the stream
    /// integrity can no longer be assumed.
    DeserializeWireFormat { ctx: ErrorContext },
    /// Failed to serialize.
    Serialize { ctx: ErrorContext },
    /// Cannot deliver a message to an unknown service.
    UnknownService { ctx: ErrorContext },
    /// No handler has been set for this service.
    NoHandler { ctx: ErrorContext },
    /// Cannot deliver because the handling actor is no longer running.
    HandlerDead { ctx: ErrorContext },
    /// Failed to spawn a task.
    Spawn { ctx: ErrorContext },
    /// Failed to relay a request because the connection to the relay has been closed.
    RelayGone { ctx: ErrorContext, relay_id: usize, relay_name: Option<String> },
    /// The wire format layer failed: framing, size or transport.
    WireFormat { ctx: ErrorContext, source: WireErr },
    /// A call was made to a service that is broadcast, which only supports sends.
    PubSubNoCall { ctx: ErrorContext },
    /// An I/O error happened in the underlying network connection.
    Io { context: std::io::ErrorKind },
}

/// The text sent to a remote client for an error it can be told about: process specific
/// information such as the peer id and name is left out.
pub open spec fn remote_err_text(e: ThesRemoteErr, names: Map<u64, Seq<char>>) -> Seq<char>
    recommends
        e is MessageSizeExceeded || e is Deserialize,
{
    match e {
        ThesRemoteErr::MessageSizeExceeded { context, size, max_size } => size_exceeded_text(
            context@,
            size as nat,
            max_size as nat,
        ),
        ThesRemoteErr::Deserialize { ctx } => "Could not deserialize your message"@
            + context_text(ErrorContext { peer_id: None, peer_name: None, ..ctx }, names),
        _ => Seq::empty(),
    }
}

impl ThesRemoteErr {
    /// The context of the error, for the kinds that carry one.
    pub open spec fn ctx_of(&self) -> Option<ErrorContext> {
        match self {
            ThesRemoteErr::ConnectionClosed { ctx } => Some(*ctx),
            ThesRemoteErr::Remote { ctx, .. } => Some(*ctx),
            ThesRemoteErr::Downcast { ctx } => Some(*ctx),
            ThesRemoteErr::MessageSizeExceeded { .. } => None,
            ThesRemoteErr::Deserialize { ctx } => Some(*ctx),
            ThesRemoteErr::DeserializeWireFormat { ctx } => Some(*ctx),
            ThesRemoteErr::Serialize { ctx } => Some(*ctx),
            ThesRemoteErr::UnknownService { ctx } => Some(*ctx),
            ThesRemoteErr::NoHandler { ctx } => Some(*ctx),
            ThesRemoteErr::HandlerDead { ctx } => Some(*ctx),
            ThesRemoteErr::Spawn { ctx } => Some(*ctx),
            ThesRemoteErr::RelayGone { ctx, .. } => Some(*ctx),
            ThesRemoteErr::WireFormat { ctx, .. } => Some(*ctx),
            ThesRemoteErr::PubSubNoCall { ctx } => Some(*ctx),
            ThesRemoteErr::Io { .. } => None,
        }
    }

    /// The context of the error, for the kinds that carry one.
    pub fn ctx(&self) -> (r: Option<&ErrorContext>)
        ensures
            match r {
                Some(c) => self.ctx_of() == Some(*c),
                None => self.ctx_of() is None,
            },
    {
        match self {
            ThesRemoteErr::ConnectionClosed { ctx } => Some(ctx),
            ThesRemoteErr::Remote { ctx, .. } => Some(ctx),
            ThesRemoteErr::Downcast { ctx } => Some(ctx),
            ThesRemoteErr::MessageSizeExceeded { .. } => None,
            ThesRemoteErr::Deserialize { ctx } => Some(ctx),
            ThesRemoteErr::DeserializeWireFormat { ctx } => Some(ctx),
            ThesRemoteErr::Serialize { ctx } => Some(ctx),
            ThesRemoteErr::UnknownService { ctx } => Some(ctx),
            ThesRemoteErr::NoHandler { ctx } => Some(ctx),
            ThesRemoteErr::HandlerDead { ctx } => Some(ctx),
            ThesRemoteErr::Spawn { ctx } => Some(ctx),
            ThesRemoteErr::RelayGone { ctx, .. } => Some(ctx),
            ThesRemoteErr::WireFormat { ctx, .. } => Some(ctx),
            ThesRemoteErr::PubSubNoCall { ctx } => Some(ctx),
            ThesRemoteErr::Io { .. } => None,
        }
    }

    /// A display string suitable for sending the error to a connected client. It omits
    /// process specific information like actor ids. Only errors a client can be told about
    /// (size exceeded, failed deserialization) have one.
    pub fn remote_err(self, registry: &ServiceRegistry) -> (s: String)
        requires
            self is MessageSizeExceeded || self is Deserialize,
        ensures
            s@ == remote_err_text(self, registry.names()),
    {
        match self {
            ThesRemoteErr::MessageSizeExceeded { context, size, max_size } => {
                size_exceeded_string(context.as_str(), size, max_size)
            },
            ThesRemoteErr::Deserialize { ctx } => {
                let mut ctx = ctx;
                ctx.peer_id = None;
                ctx.peer_name = None;
                let mut s = String::new();
                push_str(&mut s, "Could not deserialize your message");
                let t = ctx.to_display_string(registry);
                push_str(&mut s, t.as_str());
                s
            },
            _ => {
                proof {
                    assert(false);
                }
                String::new()
            },
        }
    }
}

} // verus!
