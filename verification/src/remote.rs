//! The codec framing a byte stream of multi service messages, without a size limit.

use vstd::prelude::*;
use crate::error::{ErrorContext, ThesRemoteErr};
use crate::framing::{
    FrameCheck, check_message_frame, frame, message_frame_check, push_frame, take_frame,
};
use crate::multi_service::{HEADER_LEN, MultiServiceImpl};
use crate::text::owned;

verus! {

/// The codec to frame byte streams of multi service messages, accepting messages of any size.
/// Each message is preceded by its frame length (message length plus eight) as a little endian
/// `u64`.
#[derive(Debug)]
pub struct MulServTokioCodec {}

impl MulServTokioCodec {
    /// A new codec.
    pub fn new() -> (r: Self) {
        Self {  }
    }

    /// Takes the first message off `buf` once it has completely arrived. `Ok(None)` when more
    /// bytes are needed; the buffer is then left as it is. A length prefix announcing less than
    /// the prefix itself is an error, and the buffer is left as it is.
    pub fn decode(&mut self, buf: &mut Vec<u8>) -> (r: Result<Option<MultiServiceImpl>, ThesRemoteErr>)
        ensures
            match message_frame_check(old(buf)@, None) {
                FrameCheck::Complete(len) => final(buf)@ == old(buf)@.subrange(
                    len as int,
                    old(buf)@.len() as int,
                ) && match r {
                    Ok(Some(item)) => item@ == old(buf)@.subrange(8, len as int) && len > 8
                        + HEADER_LEN,
                    Err(e) => len <= 8 + HEADER_LEN && e is Deserialize,
                    _ => false,
                },
                FrameCheck::Malformed(_) => final(buf)@ == old(buf)@ && r is Err && r->Err_0 is Deserialize,
                _ => r == Ok::<Option<MultiServiceImpl>, ThesRemoteErr>(None) && final(buf)@
                    == old(buf)@,
            },
    {
        match check_message_frame(buf.as_slice(), None) {
            FrameCheck::Malformed(_) => {
                let mut ctx = ErrorContext::default();
                ctx.context = Some(owned("Tokio Codec Decoder: the length prefix announces less than itself"));
                Err(ThesRemoteErr::Deserialize { ctx })
            },
            FrameCheck::Complete(len) => {
                let bytes = take_frame(buf, len);
                match MultiServiceImpl::try_from(bytes) {
                    Ok(item) => Ok(Some(item)),
                    Err(e) => Err(e),
                }
            },
            _ => Ok(None),
        }
    }

    /// Appends the frame of `item` to `buf`.
    pub fn encode(&mut self, item: MultiServiceImpl, buf: &mut Vec<u8>) -> (r: Result<(), ThesRemoteErr>)
        requires
            item@.len() + 8 <= usize::MAX,
        ensures
            r is Ok,
            final(buf)@ == old(buf)@ + frame(item@),
    {
        push_frame(buf, item.as_bytes());
        Ok(())
    }
}

} // verus!
