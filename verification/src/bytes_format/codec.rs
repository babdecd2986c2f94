//! The codec framing a byte stream of `BytesFormat` messages.

use vstd::prelude::*;
use super::{BytesFormat, HEADER_LEN};
use crate::framing::{
    FrameCheck, check_payload_frame, frame, lemma_payload_frame_check_frame, payload_frame_check,
    prefix_len, push_frame, take_frame,
};
use crate::text::owned;
use crate::wire_format::WireErr;

verus! {

/// The codec to frame a byte stream: each message is preceded by its frame length as a
/// little endian `u64`.
#[derive(Debug)]
pub struct ThesCodec {
    max_size: usize,
}

impl ThesCodec {
    /// The largest payload accepted, in bytes.
    pub closed spec fn max(&self) -> nat {
        self.max_size as nat
    }

    /// A new codec accepting messages with a payload of at most `max_size` bytes. The header
    /// (32 bytes) and the length prefix (8 bytes) come on top of that.
    pub fn new(max_size: usize) -> (r: Self)
        ensures
            r.max() == max_size,
    {
        Self { max_size }
    }

    /// Appends the frame of `item` to `buf`, unless its payload exceeds the maximum size.
    pub fn encode(&mut self, item: BytesFormat, buf: &mut Vec<u8>) -> (r: Result<(), WireErr>)
        requires
            item.wf(),
            item@.len() + 8 <= usize::MAX,
        ensures
            final(self).max() == old(self).max(),
            item@.len() - HEADER_LEN > old(self).max() ==> final(buf)@ == old(buf)@ && match r {
                Err(WireErr::MessageSizeExceeded { context, size, max_size }) => context@
                    == "BytesFormat Codec encoder"@ && size == item@.len() - HEADER_LEN && max_size
                    == old(self).max(),
                _ => false,
            },
            item@.len() - HEADER_LEN <= old(self).max() ==> r is Ok && final(buf)@ == old(buf)@
                + frame(item@),
    {
        let payload_len = item.len() - HEADER_LEN;
        if payload_len > self.max_size {
            return Err(
                WireErr::MessageSizeExceeded {
                    context: owned("BytesFormat Codec encoder"),
                    size: payload_len,
                    max_size: self.max_size,
                },
            );
        }
        push_frame(buf, item.as_bytes());
        Ok(())
    }

    /// Takes the first message off `buf` once it has completely arrived. `Ok(None)` when more
    /// bytes are needed; the buffer is then left as it is. A length prefix announcing less than
    /// prefix and header is an error, and the buffer is left as it is.
    pub fn decode(&mut self, buf: &mut Vec<u8>) -> (r: Result<Option<BytesFormat>, WireErr>)
        ensures
            old(buf)@.len() >= 8 + HEADER_LEN && prefix_len(old(buf)@) >= 8 + HEADER_LEN && prefix_len(
                old(buf)@,
            ) - 8 - HEADER_LEN > old(self).max() ==> {
                &&& final(buf)@ == old(buf)@
                &&& r is Err && r->Err_0 is MessageSizeExceeded
                &&& r->Err_0->MessageSizeExceeded_context@ == "BytesFormat Codec decoder"@
                &&& r->Err_0->MessageSizeExceeded_size == ((prefix_len(old(buf)@) - 8 - HEADER_LEN) as u64) as usize
                &&& r->Err_0->MessageSizeExceeded_max_size == old(self).max()
            },
            final(self).max() == old(self).max(),
            match payload_frame_check(old(buf)@, HEADER_LEN as nat, old(self).max()) {
                FrameCheck::Incomplete => r == Ok::<Option<BytesFormat>, WireErr>(None)
                    && final(buf)@ == old(buf)@,
                FrameCheck::Malformed(_) => final(buf)@ == old(buf)@ && match r {
                    Err(WireErr::Deserialize { context }) => context@
                        == "BytesFormat Codec decoder: the length prefix announces less than a header"@,
                    _ => false,
                },
                FrameCheck::TooLarge(size) => final(buf)@ == old(buf)@ && match r {
                    Err(WireErr::MessageSizeExceeded { context, size: s, max_size }) => context@
                        == "BytesFormat Codec decoder"@ && s == size as usize && max_size
                        == old(self).max(),
                    _ => false,
                },
                FrameCheck::Complete(len) => match r {
                    Ok(Some(item)) => item@ == old(buf)@.subrange(8, len as int) && final(buf)@
                        == old(buf)@.subrange(len as int, old(buf)@.len() as int),
                    _ => false,
                },
            },
    {
        match check_payload_frame(buf.as_slice(), HEADER_LEN, self.max_size) {
            FrameCheck::Incomplete => Ok(None),
            FrameCheck::Malformed(_) => Err(
                WireErr::Deserialize {
                    context: owned("BytesFormat Codec decoder: the length prefix announces less than a header"),
                },
            ),
            FrameCheck::TooLarge(size) => Err(
                WireErr::MessageSizeExceeded {
                    context: owned("BytesFormat Codec decoder"),
                    size: size as usize,
                    max_size: self.max_size,
                },
            ),
            FrameCheck::Complete(len) => {
                let bytes = take_frame(buf, len);
                match BytesFormat::try_from(bytes) {
                    Ok(item) => Ok(Some(item)),
                    Err(e) => {
                        proof {
                            assert(false);
                        }
                        Err(e)
                    },
                }
            },
        }
    }
}

/// What the codec encodes, it decodes: the frame of a message followed by more bytes gives
/// back exactly the message's bytes, and leaves exactly those more bytes in the buffer.
pub proof fn law_thes_codec_roundtrip(max: nat, item: Seq<u8>, rest: Seq<u8>)
    requires
        item.len() >= HEADER_LEN,
        item.len() - HEADER_LEN <= max,
        item.len() + 8 <= usize::MAX,
    ensures
        payload_frame_check(frame(item) + rest, HEADER_LEN as nat, max) == FrameCheck::Complete(
            (item.len() + 8) as usize,
        ),
        (frame(item) + rest).subrange(8, item.len() + 8 as int) == item,
        (frame(item) + rest).subrange(item.len() + 8 as int, (frame(item) + rest).len() as int)
            == rest,
        prefix_len(frame(item) + rest) >= 8 + HEADER_LEN,
{
    crate::little_endian::lemma_pow256_8();
    lemma_payload_frame_check_frame(item, rest, HEADER_LEN as nat, max);
    crate::framing::lemma_frame_parts(item, rest);
}

} // verus!
