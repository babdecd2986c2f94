//! Stream decoders and a sink encoder for the `ThesWF` wire format on byte streams.

pub mod decoder;
pub mod decoder_noheap;
pub mod encoder;
pub mod frame_reader;
pub mod frame_writer;

pub use decoder::Decoder;
pub use decoder_noheap::DecoderNoHeap;
pub use encoder::Encoder;
pub use frame_reader::FrameReader;
pub use frame_writer::{FlushStep, FrameWriter};
