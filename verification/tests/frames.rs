use thespis_remote::cbor_wf::{FlushStep, FrameReader, FrameWriter};
use thespis_remote::thes_wf::ThesWF;
use thespis_remote::wire_format::{ConnID, IoKind, ServiceID, WireErr, WireFormat, WireType};

fn message() -> ThesWF {
    let mut wf = ThesWF::default();
    wf.set_sid(ServiceID::from_u64(0x0102));
    wf.set_cid(ConnID::from_u64(7));
    ThesWF::write(&mut wf, b"message");
    wf
}

#[test]
fn thes_wf_fields() {
    let wf = message();
    assert_eq!(wf.len(), 31);
    assert_eq!(u64::from(wf.sid()), 0x0102);
    assert_eq!(u64::from(wf.cid()), 7);
    assert_eq!(wf.msg(), b"message");
    assert_eq!(&wf.as_buf()[0..8], &31u64.to_le_bytes());
    assert_eq!(wf.kind(), WireType::IncomingCall);
    let empty = ThesWF::default();
    assert_eq!(empty.as_buf(), &[24u8, 0, 0, 0, 0, 0, 0, 0, 0, 0, 0, 0, 0, 0, 0, 0, 0, 0, 0, 0, 0, 0, 0, 0][..]);
    assert!(matches!(ThesWF::try_from(vec![0u8; 23]), Err(WireErr::Deserialize { .. })));
}

#[test]
fn reader_whole_message() {
    let wf = message();
    let bytes = wf.as_buf().to_vec();
    let mut r = FrameReader::new(64, "test");
    assert_eq!(r.wanted(), 8);
    assert!(r.on_data(&bytes[0..8]).is_none());
    assert_eq!(r.wanted(), 23);
    let got = r.on_data(&bytes[8..]).expect("complete").expect("no error");
    assert_eq!(got, wf);
    assert_eq!(r.wanted(), 8);
}

#[test]
fn reader_chunked() {
    let wf = message();
    let bytes = wf.as_buf().to_vec();
    let mut r = FrameReader::new(64, "test");
    let mut out = None;
    let mut pos = 0;
    while pos < bytes.len() {
        let n = std::cmp::min(3, r.wanted());
        assert!(out.is_none());
        out = r.on_data(&bytes[pos..pos + n]);
        pos += n;
    }
    assert_eq!(out.expect("complete").expect("no error"), wf);
}

#[test]
fn reader_too_large() {
    let wf = message();
    let bytes = wf.as_buf().to_vec();
    let mut r = FrameReader::new(30, "limited");
    match r.on_data(&bytes[0..8]) {
        Some(Err(WireErr::MessageSizeExceeded { context, size, max_size })) => {
            assert_eq!(context, "limited");
            assert_eq!(size, 31);
            assert_eq!(max_size, 30);
        }
        other => panic!("unexpected {:?}", other),
    }
    assert_eq!(r.wanted(), 8);
}

#[test]
fn reader_too_short() {
    let mut r = FrameReader::new(64, "test");
    assert!(matches!(r.on_data(&8u64.to_le_bytes()), Some(Err(WireErr::Deserialize { .. }))));
    // A prefix announcing less than itself is reported the same way, and reading starts over.
    assert!(matches!(r.on_data(&3u64.to_le_bytes()), Some(Err(WireErr::Deserialize { .. }))));
    assert!(matches!(r.on_data(&0u64.to_le_bytes()), Some(Err(WireErr::Deserialize { .. }))));
    assert_eq!(r.wanted(), 8);
    // A prefix announcing less than a header is reported at once.
    let mut r = FrameReader::new(64, "test");
    assert!(matches!(r.on_data(&10u64.to_le_bytes()), Some(Err(WireErr::Deserialize { .. }))));
    assert!(matches!(r.on_data(&23u64.to_le_bytes()), Some(Err(WireErr::Deserialize { .. }))));
    assert!(r.on_data(&24u64.to_le_bytes()).is_none());
    assert_eq!(r.wanted(), 16);
    r.close();
    assert!(r.is_closed());
    assert_eq!(r.wanted(), 0);
}

#[test]
fn reader_end_and_io_errors() {
    let mut r = FrameReader::new(64, "test");
    assert!(r.on_data(&[1, 2, 3]).is_none());
    r.on_end();
    assert!(r.is_closed());
    assert_eq!(r.wanted(), 0);
    let mut r = FrameReader::new(64, "test");
    assert_eq!(r.on_io_error(IoKind::UnexpectedEof), None);
    assert!(r.is_closed());
    let mut r = FrameReader::new(64, "test");
    assert_eq!(r.on_io_error(IoKind::BrokenPipe), Some(WireErr::Io { kind: IoKind::BrokenPipe }));
    assert!(r.is_closed());
}

#[test]
fn writer_steps() {
    let wf = message();
    let mut w = FrameWriter::new(64);
    assert!(!w.has_pending());
    w.start_send(wf.clone()).expect("fits");
    assert_eq!(w.remaining(), wf.as_buf());
    assert_eq!(w.on_written(10), FlushStep::More);
    assert_eq!(w.remaining(), &wf.as_buf()[10..]);
    assert_eq!(w.on_written(21), FlushStep::Done);
    assert!(!w.has_pending());
    w.start_send(wf.clone()).expect("fits");
    assert_eq!(w.on_written(0), FlushStep::Aborted);
    assert!(!w.has_pending());
    let mut small = FrameWriter::new(30);
    match small.start_send(wf) {
        Err(WireErr::MessageSizeExceeded { context, size, max_size }) => {
            assert_eq!(context, "encoder start_send");
            assert_eq!(size, 31);
            assert_eq!(max_size, 30);
        }
        other => panic!("unexpected {:?}", other),
    }
}

#[test]
fn wire_err_messages() {
    let e = WireErr::Io { kind: IoKind::ConnectionAborted };
    assert_eq!(e.to_message(), "Io: ConnectionAborted");
    let e = WireErr::Io { kind: IoKind::Unlisted("HostUnreachable".to_string()) };
    assert_eq!(e.to_message(), "Io: HostUnreachable");
    assert_eq!(IoKind::UnexpectedEof.name(), format!("{:?}", std::io::ErrorKind::UnexpectedEof));
    let e = WireErr::MessageSizeExceeded { context: "c".to_string(), size: 10, max_size: 4 };
    assert_eq!(e.to_message(), "Maximum message size exceeded: context: c, actual: 10 bytes, allowed: 4 bytes.");
    let e = WireErr::Deserialize { context: ": x".to_string() };
    assert_eq!(
        e.to_message(),
        "Failed to deserialize incoming data. The connection will be closed because the stream integrity can no longer be assumed: x"
    );
}
