//! The `BytesFormat` wire format: a 16 byte service id field and a 16 byte connection id
//! field, followed by the serialized message.
//!
//! ```text
//! | sid: 16 bytes LE | cid: 16 bytes LE | serialized message |
//! ```
//!
//! The id fields are 128 bit little endian; the 64 bit ids this library uses sit in their
//! lower half, and the upper half is zero.

pub mod codec;

pub use codec::ThesCodec;

use vstd::prelude::*;
use crate::buf::append_bytes;
use crate::little_endian::{id16_bytes, id16_value, push_id16, read_id16};
use crate::text::owned;
use crate::wire_format::{ConnID, ServiceID, WireErr};

verus! {

/// Length of the header: two 16 byte id fields.
pub const HEADER_LEN: usize = 32;

/// The bytes of a message with the given ids and payload.
pub open spec fn bytes_format_bytes(sid: nat, cid: nat, mesg: Seq<u8>) -> Seq<u8> {
    id16_bytes(sid) + id16_bytes(cid) + mesg
}

/// A message in the BytesFormat wire format. It is a window on its bytes: reading a field
/// does not copy the message.
#[derive(Debug, Clone, PartialEq, Eq)]
pub struct BytesFormat {
    bytes: Vec<u8>,
}

impl View for BytesFormat {
    type V = Seq<u8>;

    closed spec fn view(&self) -> Seq<u8> {
        self.bytes@
    }
}

impl BytesFormat {
    /// Whether the message holds a full header.
    pub open spec fn wf(&self) -> bool {
        self@.len() >= HEADER_LEN
    }

    /// A message for the given service and connection, with the given payload.
    pub fn create(sid: ServiceID, cid: ConnID, mesg: &[u8]) -> (r: Self)
        ensures
            r@ == bytes_format_bytes(sid@ as nat, cid@ as nat, mesg@),
            r.wf(),
    {
        let mut bytes: Vec<u8> = Vec::new();
        push_id16(&mut bytes, sid.inner.id);
        push_id16(&mut bytes, cid.inner.id);
        append_bytes(&mut bytes, mesg);
        proof {
            crate::little_endian::lemma_le_bytes_len(sid@ as nat, 8);
            crate::little_endian::lemma_le_bytes_len(cid@ as nat, 8);
            crate::little_endian::lemma_le_bytes_len(0, 8);
        }
        assert(bytes@ =~= bytes_format_bytes(sid@ as nat, cid@ as nat, mesg@));
        Self { bytes }
    }

    /// The service id; an error when the id field does not hold a 64 bit id.
    pub fn sid(&self) -> (r: Result<ServiceID, WireErr>)
        requires
            self.wf(),
        ensures
            match r {
                Ok(s) => id16_value(self@, 0) == Some(s@ as nat),
                Err(e) => id16_value(self@, 0) is None && e is Deserialize,
            },
    {
        match read_id16(self.bytes.as_slice(), 0) {
            Some(v) => Ok(ServiceID::from_u64(v)),
            None => Err(WireErr::Deserialize { context: owned("BytesFormat: service id") }),
        }
    }

    /// The connection id; an error when the id field does not hold a 64 bit id.
    pub fn cid(&self) -> (r: Result<ConnID, WireErr>)
        requires
            self.wf(),
        ensures
            match r {
                Ok(c) => id16_value(self@, 16) == Some(c@ as nat),
                Err(e) => id16_value(self@, 16) is None && e is Deserialize,
            },
    {
        match read_id16(self.bytes.as_slice(), 16) {
            Some(v) => Ok(ConnID::from_u64(v)),
            None => Err(WireErr::Deserialize { context: owned("BytesFormat: connection id") }),
        }
    }

    /// The serialized payload.
    pub fn mesg(&self) -> (r: &[u8])
        requires
            self.wf(),
        ensures
            r@ == self@.subrange(HEADER_LEN as int, self@.len() as int),
    {
        let s = self.bytes.as_slice();
        &s[HEADER_LEN..s.len()]
    }

    /// The length of the message in bytes, header included.
    pub fn len(&self) -> (r: usize)
        ensures
            r == self@.len(),
    {
        self.bytes.len()
    }

    /// The bytes of the message.
    pub fn as_bytes(&self) -> (r: &[u8])
        ensures
            r@ == self@,
    {
        self.bytes.as_slice()
    }

    /// The bytes of the message.
    pub fn into_bytes(self) -> (r: Vec<u8>)
        ensures
            r@ == self@,
    {
        self.bytes
    }

    /// A message over the given bytes, when they hold at least a full header. An empty
    /// payload is allowed.
    pub fn try_from(bytes: Vec<u8>) -> (r: Result<Self, WireErr>)
        ensures
            match r {
                Ok(m) => bytes@.len() >= HEADER_LEN && m@ == bytes@,
                Err(e) => bytes@.len() < HEADER_LEN && e is Deserialize,
            },
    {
        if bytes.len() < HEADER_LEN {
            return Err(WireErr::Deserialize { context: owned("BytesFormat: not enough bytes") });
        }
        Ok(Self { bytes })
    }
}

/// The ids a message is created with can be read back, and the payload is what was given.
pub proof fn law_bytes_format_fields(sid: u64, cid: u64, mesg: Seq<u8>)
    ensures
        id16_value(bytes_format_bytes(sid as nat, cid as nat, mesg), 0) == Some(sid as nat),
        id16_value(bytes_format_bytes(sid as nat, cid as nat, mesg), 16) == Some(cid as nat),
        bytes_format_bytes(sid as nat, cid as nat, mesg).subrange(
            HEADER_LEN as int,
            bytes_format_bytes(sid as nat, cid as nat, mesg).len() as int,
        ) == mesg,
{
    crate::little_endian::lemma_pow256_8();
    crate::little_endian::lemma_id16_roundtrip(Seq::empty(), sid as nat, id16_bytes(cid as nat) + mesg);
    crate::little_endian::lemma_id16_roundtrip(id16_bytes(sid as nat), cid as nat, mesg);
    let b = bytes_format_bytes(sid as nat, cid as nat, mesg);
    assert(Seq::<u8>::empty() + id16_bytes(sid as nat) + (id16_bytes(cid as nat) + mesg) =~= b);
    assert(id16_bytes(sid as nat) + id16_bytes(cid as nat) + mesg =~= b);
    assert(b.subrange(HEADER_LEN as int, b.len() as int) =~= mesg);
}

} // verus!
