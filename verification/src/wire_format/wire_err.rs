//! Errors of the wire format layer: framing, size limits and the transport.

use vstd::prelude::*;
use crate::text::{decimal, push_decimal, push_str};

verus! {

/// The kind of an I/O error, from std.
#[verifier::external_type_specification]
#[verifier::external_body]
pub struct ExIoErrorKind(std::io::ErrorKind);

/// `Clone` of std's `io::ErrorKind`, a `Copy` enum: the clone is the value itself.
pub assume_specification[ <std::io::ErrorKind as Clone>::clone ](k: &std::io::ErrorKind) -> (r:
    std::io::ErrorKind)
    ensures
        r == *k,
;

/// The kind of an I/O error of the transport, as the standard library names it.
#[derive(Debug, Clone, PartialEq, Eq)]
pub enum IoKind {
    NotFound,
    PermissionDenied,
    ConnectionRefused,
    ConnectionReset,
    ConnectionAborted,
    NotConnected,
    AddrInUse,
    AddrNotAvailable,
    BrokenPipe,
    AlreadyExists,
    WouldBlock,
    InvalidInput,
    InvalidData,
    TimedOut,
    WriteZero,
    Interrupted,
    Unsupported,
    UnexpectedEof,
    OutOfMemory,
    Other,
    /// A kind without a variant of its own here, by its name.
    Unlisted(String),
}

/// The name of an I/O error kind, as its `Debug` rendering gives it.
pub open spec fn io_kind_name(k: IoKind) -> Seq<char> {
    match k {
        IoKind::NotFound => "NotFound"@,
        IoKind::PermissionDenied => "PermissionDenied"@,
        IoKind::ConnectionRefused => "ConnectionRefused"@,
        IoKind::ConnectionReset => "ConnectionReset"@,
        IoKind::ConnectionAborted => "ConnectionAborted"@,
        IoKind::NotConnected => "NotConnected"@,
        IoKind::AddrInUse => "AddrInUse"@,
        IoKind::AddrNotAvailable => "AddrNotAvailable"@,
        IoKind::BrokenPipe => "BrokenPipe"@,
        IoKind::AlreadyExists => "AlreadyExists"@,
        IoKind::WouldBlock => "WouldBlock"@,
        IoKind::InvalidInput => "InvalidInput"@,
        IoKind::InvalidData => "InvalidData"@,
        IoKind::TimedOut => "TimedOut"@,
        IoKind::WriteZero => "WriteZero"@,
        IoKind::Interrupted => "Interrupted"@,
        IoKind::Unsupported => "Unsupported"@,
        IoKind::UnexpectedEof => "UnexpectedEof"@,
        IoKind::OutOfMemory => "OutOfMemory"@,
        IoKind::Other => "Other"@,
        IoKind::Unlisted(n) => n@,
    }
}

impl IoKind {
    /// The name of this kind.
    pub fn name(&self) -> (s: String)
        ensures
            s@ == io_kind_name(*self),
    {
        let mut s = String::new();
        match self {
            IoKind::NotFound => push_str(&mut s, "NotFound"),
            IoKind::PermissionDenied => push_str(&mut s, "PermissionDenied"),
            IoKind::ConnectionRefused => push_str(&mut s, "ConnectionRefused"),
            IoKind::ConnectionReset => push_str(&mut s, "ConnectionReset"),
            IoKind::ConnectionAborted => push_str(&mut s, "ConnectionAborted"),
            IoKind::NotConnected => push_str(&mut s, "NotConnected"),
            IoKind::AddrInUse => push_str(&mut s, "AddrInUse"),
            IoKind::AddrNotAvailable => push_str(&mut s, "AddrNotAvailable"),
            IoKind::BrokenPipe => push_str(&mut s, "BrokenPipe"),
            IoKind::AlreadyExists => push_str(&mut s, "AlreadyExists"),
            IoKind::WouldBlock => push_str(&mut s, "WouldBlock"),
            IoKind::InvalidInput => push_str(&mut s, "InvalidInput"),
            IoKind::InvalidData => push_str(&mut s, "InvalidData"),
            IoKind::TimedOut => push_str(&mut s, "TimedOut"),
            IoKind::WriteZero => push_str(&mut s, "WriteZero"),
            IoKind::Interrupted => push_str(&mut s, "Interrupted"),
            IoKind::Unsupported => push_str(&mut s, "Unsupported"),
            IoKind::UnexpectedEof => push_str(&mut s, "UnexpectedEof"),
            IoKind::OutOfMemory => push_str(&mut s, "OutOfMemory"),
            IoKind::Other => push_str(&mut s, "Other"),
            IoKind::Unlisted(n) => push_str(&mut s, n.as_str()),
        }
        assert(s@ =~= io_kind_name(*self));
        s
    }
}

/// Errors that can happen in the wire format layer.
#[derive(Debug, Clone, PartialEq, Eq)]
#[non_exhaustive]
pub enum WireErr {
    /// Maximum message size exceeded.
    MessageSizeExceeded {
        /// The context in which the error happened.
        context: String,
        /// The size of the received message in bytes.
        size: usize,
        /// The maximum allowed message size in bytes.
        max_size: usize,
    },
    /// Failed to deserialize incoming data. The connection will be closed because the stream
    /// integrity can no longer be assumed.
    Deserialize {
        /// The context in which the error happened.
        context: String,
    },
    /// An I/O error happened in the underlying network connection.
    Io {
        /// The kind of the I/O error.
        kind: IoKind,
    },
}

/// The message of a size error.
pub open spec fn size_exceeded_text(context: Seq<char>, size: nat, max_size: nat) -> Seq<char> {
    "Maximum message size exceeded: context: "@ + context + ", actual: "@ + decimal(size)
        + " bytes, allowed: "@ + decimal(max_size) + " bytes."@
}

/// The human readable message of a wire error; for an I/O error, `Io: ` and the kind.
pub open spec fn wire_err_text(e: WireErr) -> Seq<char> {
    match e {
        WireErr::MessageSizeExceeded { context, size, max_size } => size_exceeded_text(
            context@,
            size as nat,
            max_size as nat,
        ),
        WireErr::Deserialize { context } =>
            "Failed to deserialize incoming data. The connection will be closed because the stream integrity can no longer be assumed"@
            + context@,
        WireErr::Io { kind } => "Io: "@ + io_kind_name(kind),
    }
}

/// Builds the message of a size error.
pub fn size_exceeded_string(context: &str, size: usize, max_size: usize) -> (s: String)
    ensures
        s@ == size_exceeded_text(context@, size as nat, max_size as nat),
{
    let mut s = String::new();
    push_str(&mut s, "Maximum message size exceeded: context: ");
    push_str(&mut s, context);
    push_str(&mut s, ", actual: ");
    push_decimal(&mut s, size as u64);
    push_str(&mut s, " bytes, allowed: ");
    push_decimal(&mut s, max_size as u64);
    push_str(&mut s, " bytes.");
    s
}

impl WireErr {
    /// The human readable message of this error (its display text).
    pub fn to_message(&self) -> (s: String)
        ensures
            s@ == wire_err_text(*self),
    {
        match self {
            WireErr::MessageSizeExceeded { context, size, max_size } => size_exceeded_string(
                context.as_str(),
                *size,
                *max_size,
            ),
            WireErr::Deserialize { context } => {
                let mut s = String::new();
                push_str(
                    &mut s,
                    "Failed to deserialize incoming data. The connection will be closed because the stream integrity can no longer be assumed",
                );
                push_str(&mut s, context.as_str());
                s
            },
            WireErr::Io { kind } => {
                let mut s = String::new();
                push_str(&mut s, "Io: ");
                let k = kind.name();
                push_str(&mut s, k.as_str());
                s
            },
        }
    }
}

} // verus!
