//! What a task that processed a request hands back to the peer.

use vstd::prelude::*;
use super::call_response::CallResponse;

verus! {

/// The two kinds of responses a task processing a request can return, or none.
#[derive(Debug)]
pub enum Response<W> {
    /// A message to send out as it is, eg. a relayed response; no back pressure is involved.
    WireFormat(W),
    /// The response to a call to a local actor; sending it frees a back pressure slot.
    CallResponse(CallResponse<W>),
    /// Nothing to send, eg. the task handled a send.
    Nothing,
}

} // verus!
