//! The `ThesWF` wire format: a little endian header of three `u64` (total length, service id,
//! connection id) followed by the serialized payload.
//!
//! ```text
//! | length u64 LE | sid u64 LE | cid u64 LE | serialized message |
//! ```
//!
//! The length is the total length of the message in bytes, header included, so that a decoder
//! that has read the first eight bytes knows how many more to read.

pub mod decoder;
pub mod encoder;

use vstd::prelude::*;
use crate::buf::append_bytes;
use crate::little_endian::{le_bytes, le_value, lemma_le_bytes_len, lemma_le_value_of_bytes, lemma_pow256_8, pow256, push_le, read_u64_le, write_u64_le};
use crate::wire_format::{ConnID, ServiceID, WireErr, WireFormat};

verus! {

/// Length in bytes of the length field.
pub const LEN_LEN: usize = 8;

/// Length in bytes of the service id field.
pub const LEN_SID: usize = 8;

/// Length in bytes of the connection id field.
pub const LEN_CID: usize = 8;

/// Offset of the length field.
pub const IDX_LEN: usize = 0;

/// Offset of the service id field.
pub const IDX_SID: usize = LEN_LEN;

/// Offset of the connection id field.
pub const IDX_CID: usize = IDX_SID + LEN_SID;

/// Offset of the payload.
pub const IDX_MSG: usize = IDX_CID + LEN_CID;

/// Length of the header.
pub const LEN_HEADER: usize = IDX_MSG;

/// The length field of a message's bytes.
pub open spec fn len_field(b: Seq<u8>) -> nat {
    le_value(b.subrange(0, 8))
}

/// The service id field of a message's bytes.
pub open spec fn sid_field(b: Seq<u8>) -> nat {
    le_value(b.subrange(8, 16))
}

/// The connection id field of a message's bytes.
pub open spec fn cid_field(b: Seq<u8>) -> nat {
    le_value(b.subrange(16, 24))
}

/// The payload of a message's bytes.
pub open spec fn payload(b: Seq<u8>) -> Seq<u8> {
    b.subrange(24, b.len() as int)
}

/// The bytes of a message with the given header fields and payload.
pub open spec fn message_bytes(len: nat, sid: nat, cid: nat, msg: Seq<u8>) -> Seq<u8> {
    le_bytes(len, 8) + le_bytes(sid, 8) + le_bytes(cid, 8) + msg
}

/// `b` with its eight bytes at `at` replaced by `v` in little endian.
pub open spec fn put_u64(b: Seq<u8>, at: int, v: nat) -> Seq<u8> {
    b.subrange(0, at) + le_bytes(v, 8) + b.subrange(at + 8, b.len() as int)
}

/// A message in the ThesWF format. It always holds at least a full header.
#[derive(Debug, Clone, PartialEq, Eq)]
pub struct ThesWF {
    data: Vec<u8>,
}

impl View for ThesWF {
    type V = Seq<u8>;

    closed spec fn view(&self) -> Seq<u8> {
        self.data@
    }
}

impl ThesWF {
    /// The bytes of this message: header and payload.
    pub fn as_buf(&self) -> (r: &[u8])
        requires
            self.wf(),
        ensures
            r@ == self@,
            r@.len() >= LEN_HEADER,
    {
        self.data.as_slice()
    }

    /// The bytes of this message: header and payload.
    pub fn into_bytes(self) -> (r: Vec<u8>)
        requires
            self.wf(),
        ensures
            r@ == self@,
            r@.len() >= LEN_HEADER,
    {
        self.data
    }

    /// Appends `buf` to the payload and updates the length field to the new total length.
    /// Returns the number of bytes written, all of `buf`.
    pub fn write(&mut self, buf: &[u8]) -> (n: usize)
        requires
            old(self).wf(),
        ensures
            final(self).wf(),
            n == buf@.len(),
            final(self)@ == put_u64(
                old(self)@ + buf@,
                0,
                (old(self)@.len() + buf@.len()) as nat,
            ),
            final(self)@.len() == old(self)@.len() + buf@.len(),
            final(self).spec_msg() == old(self).spec_msg() + buf@,
            final(self).spec_sid() == old(self).spec_sid(),
            final(self).spec_cid() == old(self).spec_cid(),
            final(self).spec_len() == final(self)@.len(),
    {
        append_bytes(&mut self.data, buf);
        let total = self.data.len();
        let ghost appended = self.data@;
        write_u64_le(&mut self.data, IDX_LEN, total as u64);
        proof {
            lemma_le_bytes_len(total as nat, 8);
            assert(self.data@ =~= put_u64(appended, 0, total as nat));
            lemma_pow256_8();
            lemma_put_u64_fields(appended, 0, total as nat);
            assert(appended.subrange(8, 16) =~= old(self)@.subrange(8, 16));
            assert(appended.subrange(16, 24) =~= old(self)@.subrange(16, 24));
            assert(payload(appended) =~= payload(old(self)@) + buf@);
        }
        buf.len()
    }

    /// Nothing is buffered: flushing does nothing.
    pub fn flush(&mut self)
        ensures
            final(self)@ == old(self)@,
    {
    }

    /// A message over the given bytes, when they hold at least a full header. The header
    /// fields are taken as they are; an empty payload is allowed.
    pub fn try_from(data: Vec<u8>) -> (r: Result<Self, WireErr>)
        ensures
            match r {
                Ok(wf) => data@.len() >= LEN_HEADER && wf@ == data@ && wf.wf(),
                Err(e) => data@.len() < LEN_HEADER && e is Deserialize,
            },
    {
        if data.len() < LEN_HEADER {
            let mut context = String::new();
            crate::text::push_str(&mut context, "ThesWF: not enough bytes even for the header.");
            return Err(WireErr::Deserialize { context });
        }
        Ok(Self { data })
    }
}

impl Default for ThesWF {
    /// An empty message: null ids, no payload, length field 24.
    fn default() -> (r: Self)
        ensures
            r@ == message_bytes(LEN_HEADER as nat, 0, 0, Seq::empty()),
            r.wf(),
    {
        Self::empty_with_capacity(0)
    }
}

impl ThesWF {
    /// An empty message (null ids, no payload, length field 24) with room for `size` more bytes.
    pub fn empty_with_capacity(size: usize) -> (r: Self)
        ensures
            r@ == message_bytes(LEN_HEADER as nat, 0, 0, Seq::empty()),
            r.wf(),
    {
        let mut data: Vec<u8> = Vec::with_capacity(size);
        push_le(&mut data, LEN_HEADER as u64, 8);
        push_le(&mut data, 0, 8);
        push_le(&mut data, 0, 8);
        proof {
            lemma_le_bytes_len(LEN_HEADER as nat, 8);
            lemma_le_bytes_len(0, 8);
            assert(data@ =~= message_bytes(LEN_HEADER as nat, 0, 0, Seq::empty()));
        }
        Self { data }
    }
}

impl WireFormat for ThesWF {
    open spec fn wf(&self) -> bool {
        self@.len() >= LEN_HEADER
    }

    open spec fn spec_sid(&self) -> u64 {
        sid_field(self@) as u64
    }

    open spec fn spec_cid(&self) -> u64 {
        cid_field(self@) as u64
    }

    open spec fn spec_msg(&self) -> Seq<u8> {
        payload(self@)
    }

    open spec fn spec_len(&self) -> nat {
        len_field(self@)
    }

    fn sid(&self) -> (r: ServiceID) {
        ServiceID::from_u64(read_u64_le(self.data.as_slice(), IDX_SID))
    }

    fn set_sid(&mut self, sid: ServiceID) {
        let ghost before = self@;
        write_u64_le(&mut self.data, IDX_SID, sid.inner.id);
        proof {
            lemma_pow256_8();
            lemma_put_u64_fields(before, 8, sid@ as nat);
        }
    }

    fn cid(&self) -> (r: ConnID) {
        ConnID::from_u64(read_u64_le(self.data.as_slice(), IDX_CID))
    }

    fn set_cid(&mut self, cid: ConnID) {
        let ghost before = self@;
        write_u64_le(&mut self.data, IDX_CID, cid.inner.id);
        proof {
            lemma_pow256_8();
            lemma_put_u64_fields(before, 16, cid@ as nat);
        }
    }

    fn msg(&self) -> (r: &[u8]) {
        let s = self.data.as_slice();
        &s[IDX_MSG..s.len()]
    }

    fn len(&self) -> (r: u64) {
        read_u64_le(self.data.as_slice(), IDX_LEN)
    }

    fn write(&mut self, buf: &[u8]) -> (n: usize) {
        ThesWF::write(self, buf)
    }

    fn with_capacity(size: usize) -> (r: Self) {
        let r = Self::empty_with_capacity(size);
        proof {
            lemma_pow256_8();
            lemma_message_fields(LEN_HEADER as nat, 0, 0, Seq::empty());
        }
        r
    }
}

/// Replacing one header field leaves the others and the payload as they were.
pub proof fn lemma_put_u64_fields(b: Seq<u8>, at: int, v: nat)
    requires
        b.len() >= 24,
        at == 0 || at == 8 || at == 16,
        v < pow256(8),
    ensures
        put_u64(b, at, v).len() == b.len(),
        payload(put_u64(b, at, v)) == payload(b),
        at == 0 ==> len_field(put_u64(b, at, v)) == v,
        at != 0 ==> len_field(put_u64(b, at, v)) == len_field(b),
        at == 8 ==> sid_field(put_u64(b, at, v)) == v,
        at != 8 ==> sid_field(put_u64(b, at, v)) == sid_field(b),
        at == 16 ==> cid_field(put_u64(b, at, v)) == v,
        at != 16 ==> cid_field(put_u64(b, at, v)) == cid_field(b),
{
    let p = put_u64(b, at, v);
    lemma_le_value_of_bytes(v, 8);
    assert(p.subrange(at, at + 8) =~= le_bytes(v, 8));
    assert(payload(p) =~= payload(b));
    if at != 0 {
        assert(p.subrange(0, 8) =~= b.subrange(0, 8));
    }
    if at != 8 {
        assert(p.subrange(8, 16) =~= b.subrange(8, 16));
    }
    if at != 16 {
        assert(p.subrange(16, 24) =~= b.subrange(16, 24));
    }
}

/// The fields of a message built from given fields are those fields.
pub proof fn lemma_message_fields(len: nat, sid: nat, cid: nat, msg: Seq<u8>)
    requires
        len < pow256(8),
        sid < pow256(8),
        cid < pow256(8),
    ensures
        message_bytes(len, sid, cid, msg).len() == 24 + msg.len(),
        len_field(message_bytes(len, sid, cid, msg)) == len,
        sid_field(message_bytes(len, sid, cid, msg)) == sid,
        cid_field(message_bytes(len, sid, cid, msg)) == cid,
        payload(message_bytes(len, sid, cid, msg)) == msg,
{
    let b = message_bytes(len, sid, cid, msg);
    lemma_le_value_of_bytes(len, 8);
    lemma_le_value_of_bytes(sid, 8);
    lemma_le_value_of_bytes(cid, 8);
    assert(b.subrange(0, 8) =~= le_bytes(len, 8));
    assert(b.subrange(8, 16) =~= le_bytes(sid, 8));
    assert(b.subrange(16, 24) =~= le_bytes(cid, 8));
    assert(payload(b) =~= msg);
}

} // verus!
