//! Serializes `ThesWF` messages of any size onto a byte stream.

use vstd::prelude::*;
use crate::cbor_wf::FrameWriter;

verus! {

/// Serializes the ThesWF format onto a stream of bytes, without a size limit.
#[derive(Debug)]
pub struct Encoder<T> {
    /// The transport.
    pub out_bytes: T,
    /// The encoding state.
    pub writer: FrameWriter,
}

impl<T> Encoder<T> {
    /// A new encoder over a transport.
    pub fn new(out_bytes: T) -> (r: Self)
        ensures
            r.out_bytes == out_bytes,
            r.writer.wf(),
            r.writer.pending() is None,
            r.writer.max() == usize::MAX,
    {
        Self { out_bytes, writer: FrameWriter::new(usize::MAX) }
    }
}

} // verus!
