//! The response to a remote call, marked so the peer gives back its back pressure slot.

use vstd::prelude::*;

verus! {

/// The response to a remote request. It is the message of the response, marked with a type so
/// that the peer frees a back pressure slot when it has been sent.
#[derive(Debug)]
pub struct CallResponse<W> {
    msg: W,
}

impl<W> CallResponse<W> {
    /// The message of the response.
    pub closed spec fn message(&self) -> W {
        self.msg
    }

    /// A response that sends `msg`.
    pub fn new(msg: W) -> (r: Self)
        ensures
            r.message() == msg,
    {
        CallResponse { msg }
    }

    /// The message of the response, to be sent out.
    pub fn into_message(self) -> (r: W)
        ensures
            r == self.message(),
    {
        self.msg
    }
}

} // verus!
