//! Decodes a byte stream into `ThesWF` messages, reading straight into the buffer of the
//! message being received.

use vstd::prelude::*;
use super::frame_reader::FrameReader;

verus! {

/// Decoder that reads each message into a single buffer of its exact size.
#[derive(Debug)]
pub struct DecoderNoHeap<T> {
    /// The transport.
    pub byte_stream: T,
    /// The decoding state.
    pub reader: FrameReader,
}

impl<T> DecoderNoHeap<T> {
    /// A new decoder over a transport, for messages of at most `max_size` bytes.
    pub fn new(byte_stream: T, max_size: usize) -> (r: Self)
        ensures
            r.byte_stream == byte_stream,
            r.reader.wf(),
            r.reader.filled() == Seq::<u8>::empty(),
            r.reader.target() is None,
            !r.reader.spec_closed(),
            r.reader.max() == max_size,
            r.reader.context() == "ThesWF Decoder"@,
    {
        Self { byte_stream, reader: FrameReader::new(max_size, "ThesWF Decoder") }
    }
}

} // verus!
