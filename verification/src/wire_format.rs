//! The wire format: identifiers, message kinds, errors, and the interface every wire format
//! implements.

pub mod codec;
pub mod conn_id;
pub mod service_id;
pub mod unique_id;
pub mod wire_err;
pub mod wire_type;

pub use conn_id::ConnID;
pub use service_id::{ServiceID, ServiceRegistry};
pub use unique_id::UniqueID;
pub use wire_err::{IoKind, WireErr};
pub use wire_type::{WireType, wire_type_of};

use vstd::prelude::*;

verus! {

/// What a wire format for remote actor messages provides: a service id naming the service
/// that is called, a connection id correlating a call with its response, the serialized
/// payload, and the total length in bytes.
pub trait WireFormat: Sized {
    /// Whether the message is well formed: it holds everything the accessors read.
    spec fn wf(&self) -> bool;

    /// The service id held by the message.
    spec fn spec_sid(&self) -> u64;

    /// The connection id held by the message.
    spec fn spec_cid(&self) -> u64;

    /// The serialized payload.
    spec fn spec_msg(&self) -> Seq<u8>;

    /// The total length, as the message states it.
    spec fn spec_len(&self) -> nat;

    /// The service id of this message: which service it calls.
    fn sid(&self) -> (r: ServiceID)
        requires
            self.wf(),
        ensures
            r@ == self.spec_sid(),
    ;

    /// Sets the service id; nothing else changes.
    fn set_sid(&mut self, sid: ServiceID)
        requires
            old(self).wf(),
        ensures
            final(self).wf(),
            final(self).spec_sid() == sid@,
            final(self).spec_cid() == old(self).spec_cid(),
            final(self).spec_msg() == old(self).spec_msg(),
            final(self).spec_len() == old(self).spec_len(),
    ;

    /// The connection id, used to correlate the response of a call with its request.
    fn cid(&self) -> (r: ConnID)
        requires
            self.wf(),
        ensures
            r@ == self.spec_cid(),
    ;

    /// Sets the connection id; nothing else changes.
    fn set_cid(&mut self, cid: ConnID)
        requires
            old(self).wf(),
        ensures
            final(self).wf(),
            final(self).spec_cid() == cid@,
            final(self).spec_sid() == old(self).spec_sid(),
            final(self).spec_msg() == old(self).spec_msg(),
            final(self).spec_len() == old(self).spec_len(),
    ;

    /// The serialized payload.
    fn msg(&self) -> (r: &[u8])
        requires
            self.wf(),
        ensures
            r@ == self.spec_msg(),
    ;

    /// The total length in bytes, as stated by the message.
    fn len(&self) -> (r: u64)
        requires
            self.wf(),
        ensures
            r == self.spec_len(),
    ;

    /// Appends `buf` to the payload; the ids stay as they are. Returns the number of bytes
    /// written, all of `buf`.
    fn write(&mut self, buf: &[u8]) -> (n: usize)
        requires
            old(self).wf(),
        ensures
            final(self).wf(),
            n == buf@.len(),
            final(self).spec_msg() == old(self).spec_msg() + buf@,
            final(self).spec_sid() == old(self).spec_sid(),
            final(self).spec_cid() == old(self).spec_cid(),
    ;

    /// An empty message (null ids, no payload) with room for a payload of `size` bytes.
    fn with_capacity(size: usize) -> (r: Self)
        ensures
            r.wf(),
            r.spec_sid() == 0,
            r.spec_cid() == 0,
            r.spec_msg() == Seq::<u8>::empty(),
    ;

    /// What kind of message this is, as told by the service id and the connection id.
    fn kind(&self) -> (k: WireType)
        requires
            self.wf(),
        ensures
            k == wire_type_of(self.spec_sid(), self.spec_cid()),
            self.spec_sid() == 0 ==> k == WireType::ConnectionError,
            self.spec_sid() == u64::MAX ==> k == WireType::CallResponse,
            self.spec_sid() != 0 && self.spec_sid() != u64::MAX && self.spec_cid() == 0 ==> k
                == WireType::IncomingSend,
            self.spec_sid() != 0 && self.spec_sid() != u64::MAX && self.spec_cid() != 0 ==> k
                == WireType::IncomingCall,
    {
        let sid = self.sid();
        if sid.is_null() {
            WireType::ConnectionError
        } else if sid.is_full() {
            WireType::CallResponse
        } else {
            let cid = self.cid();
            if cid.is_null() {
                WireType::IncomingSend
            } else {
                WireType::IncomingCall
            }
        }
    }
}

} // verus!
