//! Decodes a byte stream into `ThesWF` messages, reading the length prefix first and then the
//! rest of each message.

use vstd::prelude::*;
use super::frame_reader::FrameReader;

verus! {

/// Decodes a stream of bytes into a stream of messages. `T` is the transport. Reading from
/// the transport is left to the caller; the reader decides what to read and what it amounts
/// to.
#[derive(Debug)]
pub struct Decoder<T> {
    /// The transport.
    pub byte_stream: T,
    /// The decoding state.
    pub reader: FrameReader,
}

impl<T> Decoder<T> {
    /// A new decoder over a transport, for messages of at most `max_size` bytes.
    pub fn new(byte_stream: T, max_size: usize) -> (r: Self)
        ensures
            r.byte_stream == byte_stream,
            r.reader.wf(),
            r.reader.filled() == Seq::<u8>::empty(),
            r.reader.target() is None,
            !r.reader.spec_closed(),
            r.reader.max() == max_size,
            r.reader.context() == "CborWF Decoder"@,
    {
        Self { byte_stream, reader: FrameReader::new(max_size, "CborWF Decoder") }
    }
}

} // verus!
