# thespis_remote

Remote messaging for actors: the wire formats in which actor messages travel between
processes, the framing of byte streams into messages, the identifiers of services and calls,
and the state a peer keeps to route requests and responses over a connection. The library in
`src/` is verified with Verus; `app/` holds the asynchronous runtime around it.

- `wire_format`: service and connection ids, message kinds, wire errors, and the interface of a
  wire format; `thes_wf`, `bytes_format` and `multi_service` are the message layouts.
- `framing`, `bytes_format::codec`, `wire_format::codec`, `multi_service::tokio_codec`,
  `remote`: length prefixed framing, with size limits, and its round trip laws.
- `cbor_wf`: the decisions of stream decoders and sink encoders (`FrameReader`,
  `FrameWriter`), with the laws that a message comes out whole however the reads that
  fetch it are cut (as long as each asks for no more than the reader wants, so that the length
  prefix is read apart from the rest), and that partial writes hand on exactly its bytes.
- `peer`: the peer's state machine (calls, responses, time outs, incoming requests, error
  reports, closing), back pressure, and the messages a peer handles.
- `pub_sub`, `relay_map`, `service_map`: service maps that relay requests to other peers.
- `hash_many`: a map in which several keys share one value.
