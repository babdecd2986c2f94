//! Decodes a byte stream into `ThesWF` messages of any size.

use vstd::prelude::*;
use crate::cbor_wf::FrameReader;

verus! {

/// Decodes a stream of bytes into a stream of messages, without a size limit. `T` is the
/// transport.
#[derive(Debug)]
pub struct Decoder<T> {
    /// The transport.
    pub byte_stream: T,
    /// The decoding state.
    pub reader: FrameReader,
}

impl<T> Decoder<T> {
    /// A new decoder over a transport.
    pub fn new(byte_stream: T) -> (r: Self)
        ensures
            r.byte_stream == byte_stream,
            r.reader.wf(),
            r.reader.filled() == Seq::<u8>::empty(),
            r.reader.target() is None,
            !r.reader.spec_closed(),
            r.reader.max() == usize::MAX,
    {
        Self { byte_stream, reader: FrameReader::new(usize::MAX, "ThesWF Decoder") }
    }
}

} // verus!
