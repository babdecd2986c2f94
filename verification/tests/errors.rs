use thespis_remote::bytes_format::BytesFormat;
use thespis_remote::error::{ErrorContext, ThesRemoteErr};
use thespis_remote::multi_service::{Codecs, MulServTokioCodec, MultiServiceImpl};
use thespis_remote::peer::Peer;
use thespis_remote::wire_format::codec::ThesCodec;
use thespis_remote::wire_format::{ConnID, IoKind, ServiceID, ServiceRegistry, WireErr};

#[test]
fn message_fields_read_back() {
    let m = MultiServiceImpl::create(ServiceID::from_u64(7), ConnID::from_u64(9), Codecs::UTF8, b"abc");
    assert_eq!(m.len(), 39);
    assert_eq!(m.service().expect("sid"), ServiceID::from_u64(7));
    assert_eq!(m.conn_id().expect("cid"), ConnID::from_u64(9));
    assert_eq!(m.encoding().expect("codec"), Codecs::UTF8);
    assert_eq!(m.mesg(), b"abc");
    let b = BytesFormat::create(ServiceID::from_u64(7), ConnID::from_u64(9), b"abc");
    assert_eq!(b.len(), 35);
    assert_eq!(b.sid().expect("sid"), ServiceID::from_u64(7));
    assert_eq!(b.cid().expect("cid"), ConnID::from_u64(9));
    assert_eq!(b.mesg(), b"abc");
    assert!(matches!(BytesFormat::try_from(vec![0u8; 31]), Err(WireErr::Deserialize { .. })));
}

#[test]
fn unknown_codec_is_refused() {
    assert!(matches!(Codecs::try_from(&[1u8, 0, 0, 0]), Err(ThesRemoteErr::Deserialize { .. })));
    assert_eq!(Codecs::try_from(&[0u8, 0x40, 0, 0]).expect("utf8"), Codecs::UTF8);
    assert_eq!(Codecs::UTF8.to_display_string(), "UTF8");
    assert_eq!(Codecs::CBOR.to_display_string(), "CBOR");
}

#[test]
fn decoders_refuse_too_large_frames() {
    let mut buf = Vec::new();
    let mut big = ThesCodec::new(1024);
    big.encode(BytesFormat::create(ServiceID::from_u64(1), ConnID::from_u64(1), b"hello"), &mut buf).expect("fits");
    let mut small = ThesCodec::new(4);
    match small.decode(&mut buf) {
        Err(ThesRemoteErr::MessageSizeExceeded { context, size, max_size }) => {
            assert_eq!(context, "WireFormat Codec decoder");
            assert_eq!(size, 5);
            assert_eq!(max_size, 4);
        }
        other => panic!("unexpected {:?}", other),
    }
    // Nothing was taken off the buffer.
    assert_eq!(buf.len(), 45);
    // Too few bytes: nothing yet.
    let mut part = buf[..20].to_vec();
    assert_eq!(big.decode(&mut part).expect("no error"), None);

    let mut buf = Vec::new();
    let mut ms = MulServTokioCodec::new(1024);
    let m = MultiServiceImpl::create(ServiceID::from_u64(1), ConnID::from_u64(1), Codecs::CBOR, b"hello");
    ms.encode(m, &mut buf).expect("fits");
    let mut small = MulServTokioCodec::new(40);
    match small.decode(&mut buf) {
        Err(ThesRemoteErr::MessageSizeExceeded { context, size, max_size }) => {
            assert_eq!(context, "Tokio Codec Decoder");
            assert_eq!(size, 41);
            assert_eq!(max_size, 40);
        }
        other => panic!("unexpected {:?}", other),
    }
    let mut tiny = MulServTokioCodec::new(10);
    let m = MultiServiceImpl::create(ServiceID::from_u64(1), ConnID::from_u64(1), Codecs::CBOR, b"hello");
    match tiny.encode(m, &mut Vec::new()) {
        Err(ThesRemoteErr::MessageSizeExceeded { context, size, max_size }) => {
            assert_eq!(context, "Tokio Codec Encoder");
            assert_eq!(size, 41);
            assert_eq!(max_size, 10);
        }
        other => panic!("unexpected {:?}", other),
    }
}

#[test]
fn error_context_display() {
    let reg = ServiceRegistry::new();
    let ctx = ErrorContext {
        context: Some("here".to_string()),
        peer_id: Some(4),
        peer_name: Some("p".to_string()),
        sid: Some(ServiceID::from_u64(1)),
        cid: Some(ConnID::from_u64(2)),
    };
    assert_eq!(
        ctx.to_display_string(&reg),
        " Context: here. peer_id: 4. peer_name: p. sid: 0x0000000000000001. cid: 0x0000000000000002."
    );
    assert_eq!(ErrorContext::default().to_display_string(&reg), "");
    // The remote is told about the error without the peer's own details.
    let e = ThesRemoteErr::Deserialize { ctx };
    assert_eq!(
        e.remote_err(&reg),
        "Could not deserialize your message Context: here. sid: 0x0000000000000001. cid: 0x0000000000000002."
    );
    let e = ThesRemoteErr::MessageSizeExceeded { context: "c".to_string(), size: 3, max_size: 2 };
    assert_eq!(e.remote_err(&reg), "Maximum message size exceeded: context: c, actual: 3 bytes, allowed: 2 bytes.");
}

#[test]
fn peer_error_constructors() {
    let p = Peer::new(5, Some("n".to_string()));
    let sid = ServiceID::from_u64(3);
    let cid = ConnID::from_u64(4);
    for e in [
        ThesRemoteErr::NoHandler { ctx: ErrorContext::default() },
        ThesRemoteErr::Deserialize { ctx: ErrorContext::default() },
        ThesRemoteErr::Spawn { ctx: ErrorContext::default() },
    ] {
        let mapped = p.send_service_error(sid, &e);
        assert_eq!(std::mem::discriminant(&mapped), std::mem::discriminant(&e));
        let ctx = mapped.ctx().expect("context");
        assert_eq!(ctx.context.as_deref(), Some("sm.send_service"));
        assert_eq!(ctx.peer_id, Some(5));
        assert_eq!(ctx.peer_name.as_deref(), Some("n"));
        assert_eq!(ctx.sid, Some(sid));
        assert_eq!(ctx.cid, None);
    }
    match p.send_failed_error(sid, cid, WireErr::Io { kind: IoKind::BrokenPipe }) {
        ThesRemoteErr::WireFormat { ctx, source } => {
            assert_eq!(ctx.context.as_deref(), Some("Sending out WireFormat"));
            assert_eq!(ctx.cid, Some(cid));
            assert_eq!(source, WireErr::Io { kind: IoKind::BrokenPipe });
        }
        other => panic!("unexpected {:?}", other),
    }
    match Peer::send_closed_error() {
        ThesRemoteErr::ConnectionClosed { ctx } => {
            assert_eq!(ctx.context.as_deref(), Some("register_relayed_services"));
            assert_eq!(ctx.peer_id, None);
        }
        other => panic!("unexpected {:?}", other),
    }
    let ctx = Peer::err_ctx(1, None, Some(sid), None, Some("c".to_string()));
    assert_eq!(ctx.peer_id, Some(1));
    assert_eq!(ctx.sid, Some(sid));
    assert!(ThesRemoteErr::Io { context: std::io::ErrorKind::Other }.ctx().is_none());
}

#[test]
fn multi_service_limit_is_the_message_length() {
    // A message exactly at the limit is encoded and decoded.
    let m = MultiServiceImpl::create(ServiceID::from_u64(1), ConnID::from_u64(1), Codecs::CBOR, b"abcd");
    assert_eq!(m.len(), 40);
    let mut codec = MulServTokioCodec::new(40);
    let mut buf = Vec::new();
    codec.encode(m.clone(), &mut buf).expect("fits");
    assert_eq!(codec.decode(&mut buf).expect("no error"), Some(m));
    assert!(buf.is_empty());
}

#[test]
fn malformed_length_prefixes_are_errors() {
    // A prefix announcing less than prefix and header.
    let mut buf = 20u64.to_le_bytes().to_vec();
    buf.extend_from_slice(&[0u8; 40]);
    let before = buf.clone();
    match ThesCodec::new(1024).decode(&mut buf) {
        Err(ThesRemoteErr::Deserialize { ctx }) => assert_eq!(
            ctx.context.as_deref(),
            Some("WireFormat Codec decoder: the length prefix announces less than a header")
        ),
        other => panic!("unexpected {:?}", other),
    }
    assert_eq!(buf, before);
    match thespis_remote::bytes_format::ThesCodec::new(1024).decode(&mut buf) {
        Err(WireErr::Deserialize { context }) => {
            assert_eq!(context, "BytesFormat Codec decoder: the length prefix announces less than a header")
        }
        other => panic!("unexpected {:?}", other),
    }
    // A prefix announcing less than itself.
    let mut buf = 3u64.to_le_bytes().to_vec();
    assert!(matches!(MulServTokioCodec::new(1024).decode(&mut buf), Err(ThesRemoteErr::Deserialize { .. })));
    assert!(matches!(
        thespis_remote::remote::MulServTokioCodec::new().decode(&mut buf),
        Err(ThesRemoteErr::Deserialize { .. })
    ));
    assert_eq!(buf.len(), 8);
}
