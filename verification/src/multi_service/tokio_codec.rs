//! The codec framing a byte stream of multi service messages, with a size limit.

use vstd::prelude::*;
use super::{HEADER_LEN, MultiServiceImpl};
use crate::error::{ErrorContext, ThesRemoteErr};
use crate::framing::{
    FrameCheck, check_message_frame, frame, message_frame_check, prefix_len, push_frame, take_frame,
};
use crate::text::owned;

verus! {

/// The codec to frame byte streams of multi service messages. Each message is preceded by
/// its frame length (message length plus eight) as a little endian `u64`.
#[derive(Debug)]
pub struct MulServTokioCodec {
    max_length: usize,
}

impl MulServTokioCodec {
    /// The largest message accepted, in bytes.
    pub closed spec fn max(&self) -> nat {
        self.max_length as nat
    }

    /// A new codec, with the maximum length of a single message in bytes, header included and
    /// length prefix excluded, both when encoding and when decoding.
    pub fn new(max_length: usize) -> (r: Self)
        ensures
            r.max() == max_length,
    {
        Self { max_length }
    }

    /// Takes the first message off `buf` once it has completely arrived. `Ok(None)` when more
    /// bytes are needed; the buffer is then left as it is. The limit applies to the message, as
    /// when encoding. A length prefix announcing less than the prefix itself is an error, and
    /// the buffer is left as it is.
    pub fn decode(&mut self, buf: &mut Vec<u8>) -> (r: Result<Option<MultiServiceImpl>, ThesRemoteErr>)
        ensures
            old(buf)@.len() >= 8 && prefix_len(old(buf)@) >= 8 && prefix_len(old(buf)@) - 8 > old(
                self,
            ).max() ==> {
                &&& final(buf)@ == old(buf)@
                &&& r is Err && r->Err_0 is MessageSizeExceeded
                &&& r->Err_0->MessageSizeExceeded_context@ == "Tokio Codec Decoder"@
                &&& r->Err_0->MessageSizeExceeded_size == ((prefix_len(old(buf)@) - 8) as u64) as usize
                &&& r->Err_0->MessageSizeExceeded_max_size == old(self).max()
            },
            final(self).max() == old(self).max(),
            match message_frame_check(old(buf)@, Some(old(self).max())) {
                FrameCheck::Incomplete => r == Ok::<Option<MultiServiceImpl>, ThesRemoteErr>(None)
                    && final(buf)@ == old(buf)@,
                FrameCheck::Malformed(_) => final(buf)@ == old(buf)@ && r is Err && r->Err_0 is Deserialize,
                FrameCheck::TooLarge(size) => final(buf)@ == old(buf)@ && match r {
                    Err(ThesRemoteErr::MessageSizeExceeded { context, size: s, max_size }) => context@
                        == "Tokio Codec Decoder"@ && s == size as usize && max_size == old(self).max(),
                    _ => false,
                },
                FrameCheck::Complete(len) => final(buf)@ == old(buf)@.subrange(
                    len as int,
                    old(buf)@.len() as int,
                ) && match r {
                    Ok(Some(item)) => item@ == old(buf)@.subrange(8, len as int) && len > 8
                        + HEADER_LEN,
                    Err(e) => len <= 8 + HEADER_LEN && e is Deserialize,
                    _ => false,
                },
            },
    {
        match check_message_frame(buf.as_slice(), Some(self.max_length)) {
            FrameCheck::Incomplete => Ok(None),
            FrameCheck::Malformed(_) => {
                let mut ctx = ErrorContext::default();
                ctx.context = Some(owned("Tokio Codec Decoder: the length prefix announces less than itself"));
                Err(ThesRemoteErr::Deserialize { ctx })
            },
            FrameCheck::TooLarge(size) => Err(
                ThesRemoteErr::MessageSizeExceeded {
                    context: owned("Tokio Codec Decoder"),
                    size: size as usize,
                    max_size: self.max_length,
                },
            ),
            FrameCheck::Complete(len) => {
                let bytes = take_frame(buf, len);
                match MultiServiceImpl::try_from(bytes) {
                    Ok(item) => Ok(Some(item)),
                    Err(e) => Err(e),
                }
            },
        }
    }

    /// Appends the frame of `item` to `buf`, unless the message is longer than the maximum
    /// length.
    pub fn encode(&mut self, item: MultiServiceImpl, buf: &mut Vec<u8>) -> (r: Result<(), ThesRemoteErr>)
        requires
            item@.len() + 8 <= usize::MAX,
        ensures
            final(self).max() == old(self).max(),
            item@.len() > old(self).max() ==> final(buf)@ == old(buf)@ && match r {
                Err(ThesRemoteErr::MessageSizeExceeded { context, size, max_size }) => context@
                    == "Tokio Codec Encoder"@ && size == item@.len() && max_size == old(self).max(),
                _ => false,
            },
            item@.len() <= old(self).max() ==> r is Ok && final(buf)@ == old(buf)@ + frame(item@),
    {
        if item.len() > self.max_length {
            return Err(
                ThesRemoteErr::MessageSizeExceeded {
                    context: owned("Tokio Codec Encoder"),
                    size: item.len(),
                    max_size: self.max_length,
                },
            );
        }
        push_frame(buf, item.as_bytes());
        Ok(())
    }
}

/// What the multi service codecs encode, they decode: the frame of a message followed by more
/// bytes gives back exactly the message's bytes and leaves exactly those more bytes, for every
/// message within the limit, if there is one (`None` for the codec without a limit): the
/// encoder and the decoder apply the limit to the same length, that of the message.
pub proof fn law_mul_serv_codec_roundtrip(max: Option<nat>, item: Seq<u8>, rest: Seq<u8>)
    requires
        item.len() > HEADER_LEN,
        max is Some ==> item.len() <= max->0,
        item.len() + 8 <= usize::MAX,
    ensures
        message_frame_check(frame(item) + rest, max) == FrameCheck::Complete((item.len() + 8) as usize),
        (frame(item) + rest).subrange(8, item.len() + 8 as int) == item,
        (frame(item) + rest).subrange(item.len() + 8 as int, (frame(item) + rest).len() as int)
            == rest,
{
    crate::little_endian::lemma_pow256_8();
    crate::framing::lemma_message_frame_check_frame(item, rest, max);
    crate::framing::lemma_frame_parts(item, rest);
}

} // verus!
