//! Remote messaging for thespis actors: wire formats, framing codecs, service identifiers
//! and the bookkeeping a peer needs to route requests, all with machine-checked contracts.

pub mod buf;
pub mod bytes_format;
pub mod cbor_wf;
pub mod error;
pub mod framing;
pub mod hash_many;
pub mod little_endian;
pub mod multi_service;
pub mod peer;
pub mod pub_sub;
pub mod relay_map;
pub mod remote;
pub mod service_map;
pub mod text;
pub mod thes_wf;
pub mod wire_format;

