//! The multi service wire format: a 16 byte service id, a 16 byte connection id and a four
//! byte codec number, followed by the serialized message.
//!
//! ```text
//! | sid: 16 bytes LE | cid: 16 bytes LE | codec: u32 LE | serialized message |
//! ```
//!
//! As soon as a codec has determined from the length prefix that a whole message has arrived,
//! a `MultiServiceImpl` is made from its bytes. It is a window on those bytes, used to find out
//! which service the message is for, whether it is a call (non null connection id) and how
//! the payload is encoded.

pub mod codecs;
pub mod tokio_codec;

pub use codecs::Codecs;
pub use tokio_codec::MulServTokioCodec;

use vstd::prelude::*;
use crate::buf::append_bytes;
use crate::error::{ErrorContext, ThesRemoteErr};
use crate::little_endian::{
    id16_bytes, id16_value, le_bytes, le_value, push_id16, push_le, read_id16,
};
use crate::text::owned;
use crate::wire_format::{ConnID, ServiceID};
use codecs::{codec_number, codec_of_number};

verus! {

/// Length of the header: two 16 byte id fields and the four byte codec field.
pub const HEADER_LEN: usize = 36;

/// The bytes of a message with the given ids, codec and payload.
pub open spec fn multi_service_bytes(sid: nat, cid: nat, codec: Codecs, mesg: Seq<u8>) -> Seq<u8> {
    id16_bytes(sid) + id16_bytes(cid) + le_bytes(codec_number(codec), 4) + mesg
}

/// A multi service message.
#[derive(Debug, Clone, PartialEq, Eq)]
pub struct MultiServiceImpl {
    bytes: Vec<u8>,
}

impl View for MultiServiceImpl {
    type V = Seq<u8>;

    closed spec fn view(&self) -> Seq<u8> {
        self.bytes@
    }
}

fn deserialize_err(what: &str) -> (e: ThesRemoteErr)
    ensures
        e is Deserialize,
{
    let mut ctx = ErrorContext::default();
    ctx.context = Some(owned(what));
    ThesRemoteErr::Deserialize { ctx }
}

impl MultiServiceImpl {
    /// Whether the message holds a header and at least one byte of payload.
    pub open spec fn wf(&self) -> bool {
        self@.len() > HEADER_LEN
    }

    /// A message for the given service and connection, with the given codec and payload.
    pub fn create(service: ServiceID, conn_id: ConnID, codec: Codecs, mesg: &[u8]) -> (r: Self)
        ensures
            r@ == multi_service_bytes(service@ as nat, conn_id@ as nat, codec, mesg@),
    {
        let mut bytes: Vec<u8> = Vec::new();
        push_id16(&mut bytes, service.inner.id);
        push_id16(&mut bytes, conn_id.inner.id);
        push_le(&mut bytes, codec.to_u32() as u64, 4);
        append_bytes(&mut bytes, mesg);
        assert(bytes@ =~= multi_service_bytes(service@ as nat, conn_id@ as nat, codec, mesg@));
        Self { bytes }
    }

    /// The service id; an error when the id field does not hold a 64 bit id.
    pub fn service(&self) -> (r: Result<ServiceID, ThesRemoteErr>)
        requires
            self.wf(),
        ensures
            match r {
                Ok(s) => id16_value(self@, 0) == Some(s@ as nat),
                Err(e) => id16_value(self@, 0) is None && e is Deserialize,
            },
    {
        match read_id16(self.bytes.as_slice(), 0) {
            Some(v) => Ok(ServiceID::from_u64(v)),
            None => Err(deserialize_err("MultiServiceImpl: service id")),
        }
    }

    /// The connection id; an error when the id field does not hold a 64 bit id.
    pub fn conn_id(&self) -> (r: Result<ConnID, ThesRemoteErr>)
        requires
            self.wf(),
        ensures
            match r {
                Ok(c) => id16_value(self@, 16) == Some(c@ as nat),
                Err(e) => id16_value(self@, 16) is None && e is Deserialize,
            },
    {
        match read_id16(self.bytes.as_slice(), 16) {
            Some(v) => Ok(ConnID::from_u64(v)),
            None => Err(deserialize_err("MultiServiceImpl: connection id")),
        }
    }

    /// The codec of the payload; an error for an unknown codec number.
    pub fn encoding(&self) -> (r: Result<Codecs, ThesRemoteErr>)
        requires
            self.wf(),
        ensures
            match codec_of_number(le_value(self@.subrange(32, 36))) {
                Some(c) => r == Ok::<Codecs, ThesRemoteErr>(c),
                None => r is Err && r->Err_0 is Deserialize,
            },
    {
        let s = self.bytes.as_slice();
        let field = &s[32..36];
        assert(field@.subrange(0, 4) =~= self@.subrange(32, 36));
        Codecs::try_from(field)
    }

    /// The serialized payload.
    pub fn mesg(&self) -> (r: &[u8])
        requires
            self.wf(),
        ensures
            r@ == self@.subrange(HEADER_LEN as int, self@.len() as int),
    {
        let s = self.bytes.as_slice();
        &s[HEADER_LEN..s.len()]
    }

    /// The length of the message in bytes, header included.
    pub fn len(&self) -> (r: usize)
        ensures
            r == self@.len(),
    {
        self.bytes.len()
    }

    /// The bytes of the message.
    pub fn as_bytes(&self) -> (r: &[u8])
        ensures
            r@ == self@,
    {
        self.bytes.as_slice()
    }

    /// The bytes of the message.
    pub fn into_bytes(self) -> (r: Vec<u8>)
        ensures
            r@ == self@,
    {
        self.bytes
    }

    /// A message over the given bytes, when they hold a header and at least one byte of
    /// payload. An empty message is not considered valid.
    pub fn try_from(bytes: Vec<u8>) -> (r: Result<Self, ThesRemoteErr>)
        ensures
            match r {
                Ok(m) => bytes@.len() > HEADER_LEN && m@ == bytes@ && m.wf(),
                Err(e) => bytes@.len() <= HEADER_LEN && e is Deserialize,
            },
    {
        if bytes.len() < HEADER_LEN + 1 {
            return Err(deserialize_err("MultiServiceImpl: not enough bytes"));
        }
        Ok(Self { bytes })
    }
}

/// The ids and codec a message is created with can be read back, and the payload is what was
/// given.
pub proof fn law_multi_service_fields(sid: u64, cid: u64, codec: Codecs, mesg: Seq<u8>)
    ensures
        ({
            let b = multi_service_bytes(sid as nat, cid as nat, codec, mesg);
            &&& b.len() == HEADER_LEN + mesg.len()
            &&& id16_value(b, 0) == Some(sid as nat)
            &&& id16_value(b, 16) == Some(cid as nat)
            &&& codec_of_number(le_value(b.subrange(32, 36))) == Some(codec)
            &&& b.subrange(HEADER_LEN as int, b.len() as int) == mesg
        }),
{
    crate::little_endian::lemma_pow256_8();
    let c4 = le_bytes(codec_number(codec), 4);
    crate::little_endian::lemma_le_value_of_bytes(codec_number(codec), 4);
    crate::little_endian::lemma_id16_roundtrip(Seq::empty(), sid as nat, id16_bytes(cid as nat) + c4 + mesg);
    crate::little_endian::lemma_id16_roundtrip(id16_bytes(sid as nat), cid as nat, c4 + mesg);
    let b = multi_service_bytes(sid as nat, cid as nat, codec, mesg);
    assert(Seq::<u8>::empty() + id16_bytes(sid as nat) + (id16_bytes(cid as nat) + c4 + mesg) =~= b);
    assert(id16_bytes(sid as nat) + id16_bytes(cid as nat) + (c4 + mesg) =~= b);
    assert(b.subrange(32, 36) =~= c4);
    assert(b.subrange(HEADER_LEN as int, b.len() as int) =~= mesg);
}

} // verus!
