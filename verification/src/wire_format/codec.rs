//! The codec framing a byte stream of messages in the 32 byte header format, reporting
//! errors as `ThesRemoteErr`.

use vstd::prelude::*;
use crate::bytes_format::{BytesFormat, HEADER_LEN};
use crate::error::{ErrorContext, ThesRemoteErr};
use crate::framing::{
    FrameCheck, check_payload_frame, frame, lemma_payload_frame_check_frame, payload_frame_check,
    prefix_len, push_frame, take_frame,
};
use crate::text::owned;

verus! {

/// The codec to frame a byte stream: each message is preceded by its frame length as a
/// little endian `u64`.
#[derive(Debug)]
pub struct ThesCodec {
    max_length: usize,
}

impl ThesCodec {
    /// The largest payload accepted, in bytes.
    pub closed spec fn max(&self) -> nat {
        self.max_length as nat
    }

    /// A new codec accepting messages with a payload of at most `max_length` bytes. The header
    /// (32 bytes) and the length prefix (8 bytes) come on top of that.
    pub fn new(max_length: usize) -> (r: Self)
        ensures
            r.max() == max_length,
    {
        Self { max_length }
    }

    /// Appends the frame of `item` to `buf`, unless its payload exceeds the maximum size.
    pub fn encode(&mut self, item: BytesFormat, buf: &mut Vec<u8>) -> (r: Result<(), ThesRemoteErr>)
        requires
            item.wf(),
            item@.len() + 8 <= usize::MAX,
        ensures
            final(self).max() == old(self).max(),
            item@.len() - HEADER_LEN > old(self).max() ==> final(buf)@ == old(buf)@ && match r {
                Err(ThesRemoteErr::MessageSizeExceeded { context, size, max_size }) => context@
                    == "WireFormat Codec encoder"@ && size == item@.len() - HEADER_LEN && max_size
                    == old(self).max(),
                _ => false,
            },
            item@.len() - HEADER_LEN <= old(self).max() ==> r is Ok && final(buf)@ == old(buf)@
                + frame(item@),
    {
        let payload_len = item.len() - HEADER_LEN;
        if payload_len > self.max_length {
            return Err(
                ThesRemoteErr::MessageSizeExceeded {
                    context: owned("WireFormat Codec encoder"),
                    size: payload_len,
                    max_size: self.max_length,
                },
            );
        }
        push_frame(buf, item.as_bytes());
        Ok(())
    }

    /// Takes the first message off `buf` once it has completely arrived. `Ok(None)` when more
    /// bytes are needed; the buffer is then left as it is. A length prefix announcing less than
    /// prefix and header is an error, and the buffer is left as it is.
    pub fn decode(&mut self, buf: &mut Vec<u8>) -> (r: Result<Option<BytesFormat>, ThesRemoteErr>)
        ensures
            old(buf)@.len() >= 8 + HEADER_LEN && prefix_len(old(buf)@) >= 8 + HEADER_LEN && prefix_len(
                old(buf)@,
            ) - 8 - HEADER_LEN > old(self).max() ==> {
                &&& final(buf)@ == old(buf)@
                &&& r is Err && r->Err_0 is MessageSizeExceeded
                &&& r->Err_0->MessageSizeExceeded_context@ == "WireFormat Codec decoder"@
                &&& r->Err_0->MessageSizeExceeded_size == ((prefix_len(old(buf)@) - 8 - HEADER_LEN) as u64) as usize
                &&& r->Err_0->MessageSizeExceeded_max_size == old(self).max()
            },
            final(self).max() == old(self).max(),
            match payload_frame_check(old(buf)@, HEADER_LEN as nat, old(self).max()) {
                FrameCheck::Incomplete => r == Ok::<Option<BytesFormat>, ThesRemoteErr>(None)
                    && final(buf)@ == old(buf)@,
                FrameCheck::Malformed(_) => final(buf)@ == old(buf)@ && r is Err && r->Err_0 is Deserialize
                    && r->Err_0.ctx_of()->0.context is Some && r->Err_0.ctx_of()->0.context->0@
                    == "WireFormat Codec decoder: the length prefix announces less than a header"@,
                FrameCheck::TooLarge(size) => final(buf)@ == old(buf)@ && match r {
                    Err(ThesRemoteErr::MessageSizeExceeded { context, size: s, max_size }) => context@
                        == "WireFormat Codec decoder"@ && s == size as usize && max_size
                        == old(self).max(),
                    _ => false,
                },
                FrameCheck::Complete(len) => match r {
                    Ok(Some(item)) => item@ == old(buf)@.subrange(8, len as int) && final(buf)@
                        == old(buf)@.subrange(len as int, old(buf)@.len() as int),
                    _ => false,
                },
            },
    {
        match check_payload_frame(buf.as_slice(), HEADER_LEN, self.max_length) {
            FrameCheck::Incomplete => Ok(None),
            FrameCheck::Malformed(_) => {
                let mut ctx = ErrorContext::default();
                ctx.context = Some(owned("WireFormat Codec decoder: the length prefix announces less than a header"));
                Err(ThesRemoteErr::Deserialize { ctx })
            },
            FrameCheck::TooLarge(size) => Err(
                ThesRemoteErr::MessageSizeExceeded {
                    context: owned("WireFormat Codec decoder"),
                    size: size as usize,
                    max_size: self.max_length,
                },
            ),
            FrameCheck::Complete(len) => {
                let bytes = take_frame(buf, len);
                match BytesFormat::try_from(bytes) {
                    Ok(item) => Ok(Some(item)),
                    Err(_) => {
                        proof {
                            assert(false);
                        }
                        Ok(None)
                    },
                }
            },
        }
    }
}

} // verus!
