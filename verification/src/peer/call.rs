//! An outgoing call: a message for a remote service that expects a response.

use vstd::prelude::*;
use crate::wire_format::{ServiceID, WireFormat};

verus! {

/// An outgoing call. Used by a recipient of a remote service to hand an outgoing call to the
/// peer, and by the peer to call a remote service when relaying. The peer gives the message
/// its connection id.
#[derive(Debug)]
pub struct Call<W> {
    frame: W,
}

impl<W: WireFormat> Call<W> {
    /// The message of the call.
    pub closed spec fn message(&self) -> W {
        self.frame
    }

    /// A call that sends `wf`.
    pub fn new(wf: W) -> (r: Self)
        ensures
            r.message() == wf,
    {
        Call { frame: wf }
    }

    /// The service the call is for.
    pub fn service(&self) -> (r: ServiceID)
        requires
            self.message().wf(),
        ensures
            r@ == self.message().spec_sid(),
    {
        self.frame.sid()
    }

    /// The message of the call, to be sent out.
    pub fn into_message(self) -> (r: W)
        ensures
            r == self.message(),
    {
        self.frame
    }
}

} // verus!
