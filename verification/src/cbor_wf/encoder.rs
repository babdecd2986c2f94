//! Serializes `ThesWF` messages onto a byte stream.

use vstd::prelude::*;
use super::frame_writer::FrameWriter;

verus! {

/// Serializes the ThesWF format onto a stream of bytes.
#[derive(Debug)]
pub struct Encoder<T> {
    /// The transport.
    pub out_bytes: T,
    /// The encoding state.
    pub writer: FrameWriter,
}

impl<T> Encoder<T> {
    /// A new encoder over a transport, for messages of at most `max_size` bytes.
    pub fn new(out_bytes: T, max_size: usize) -> (r: Self)
        ensures
            r.out_bytes == out_bytes,
            r.writer.wf(),
            r.writer.pending() is None,
            r.writer.max() == max_size,
    {
        Self { out_bytes, writer: FrameWriter::new(max_size) }
    }
}

} // verus!
