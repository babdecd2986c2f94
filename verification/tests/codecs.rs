use thespis_remote::bytes_format::BytesFormat;
use thespis_remote::error::ThesRemoteErr;
use thespis_remote::multi_service::{Codecs, MulServTokioCodec, MultiServiceImpl, HEADER_LEN};
use thespis_remote::remote;
use thespis_remote::wire_format::codec::ThesCodec;
use thespis_remote::wire_format::{ConnID, ServiceID};

fn ashex(buf: &[u8]) -> String {
    let mut s = String::new();
    for b in buf {
        s.push_str(&format!("{:02x}", b));
    }
    s
}

fn ms_empty_data() -> MultiServiceImpl {
    MultiServiceImpl::create(ServiceID::from_seed(b"Empty Message", b""), ConnID::default(), Codecs::CBOR, &[0u8])
}

fn ms_full_data() -> MultiServiceImpl {
    MultiServiceImpl::create(ServiceID::from_seed(b"Full Message", b""), ConnID::default(), Codecs::CBOR, b"hello")
}

fn bf_empty_data() -> BytesFormat {
    BytesFormat::create(ServiceID::from_seed(b"codec_tests", b"Empty Message"), ConnID::random(), &[0u8])
}

fn bf_full_data() -> BytesFormat {
    BytesFormat::create(ServiceID::from_seed(b"codec_tests", b"Full Message"), ConnID::random(), b"hello")
}

#[test]
fn tryfrom_bytes_to_small() {
    let buf = vec![5u8; HEADER_LEN];
    match MultiServiceImpl::try_from(buf) {
        Ok(_) => assert!(false, "MultiServiceImpl::try_from( Bytes ) should fail for data shorter than header"),
        Err(e) => match e {
            ThesRemoteErr::Deserialize { .. } => assert!(true),
            _ => assert!(false, "Wrong error type (should be Deserialize): {:?}", e),
        },
    }
}

#[test]
fn to_bytes() {
    let buf = Codecs::CBOR.to_bytes();
    assert_eq!(4, buf.len());
    assert_eq!("51000000", ashex(&buf));
    assert_eq!(Codecs::CBOR, Codecs::try_from(&buf).expect("decode bytes"));
}

#[test]
fn tokio_codec_empty() {
    let mut codec = MulServTokioCodec::new(1024);
    let mut buf = Vec::new();
    let data = ms_empty_data();
    let data2 = data.clone();
    codec.encode(data, &mut buf).expect("Encoding empty");
    assert_eq!(
        data2,
        codec.decode(&mut buf).expect("No errors should occur").expect("There should be some data (eg. Not Ok(None)")
    );
}

#[test]
fn tokio_codec_full() {
    let mut codec = MulServTokioCodec::new(1024);
    let mut buf = Vec::new();
    let data = ms_full_data();
    let data2 = data.clone();
    codec.encode(data, &mut buf).expect("Encoding empty");
    assert_eq!(
        data2,
        codec.decode(&mut buf).expect("No errors should occur").expect("There should be some data (eg. Not Ok(None)")
    );
}

#[test]
fn tokio_codec_partials() {
    let mut codec = MulServTokioCodec::new(1024);
    let mut buf = Vec::new();
    let empty = ms_empty_data();
    let full = ms_full_data();
    let empty2 = empty.clone();
    let full2 = full.clone();
    let full3 = full.clone();
    codec.encode(empty, &mut buf).expect("Encoding empty");
    codec.encode(full, &mut buf).expect("Encoding full");
    codec.encode(full2, &mut buf).expect("Encoding full");
    buf.truncate(142);
    assert_eq!(empty2, codec.decode(&mut buf).expect("Decode empty").expect("Not None"));
    assert_eq!(full3, codec.decode(&mut buf).expect("Decode empty").expect("Not None"));
    assert_eq!(48, buf.len());
}

#[test]
fn remote_tokio_codec_empty() {
    let mut codec = remote::MulServTokioCodec::new();
    let mut buf = Vec::new();
    let data = ms_empty_data();
    let data2 = data.clone();
    codec.encode(data, &mut buf).expect("Encoding empty");
    assert_eq!(
        data2,
        codec.decode(&mut buf).expect("No errors should occur").expect("There should be some data (eg. Not Ok(None)")
    );
}

#[test]
fn remote_tokio_codec_full() {
    let mut codec = remote::MulServTokioCodec::new();
    let mut buf = Vec::new();
    let data = ms_full_data();
    let data2 = data.clone();
    codec.encode(data, &mut buf).expect("Encoding empty");
    assert_eq!(
        data2,
        codec.decode(&mut buf).expect("No errors should occur").expect("There should be some data (eg. Not Ok(None)")
    );
}

#[test]
fn remote_tokio_codec_partials() {
    let mut codec = remote::MulServTokioCodec::new();
    let mut buf = Vec::new();
    let empty = ms_empty_data();
    let full = ms_full_data();
    let empty2 = empty.clone();
    let full2 = full.clone();
    let full3 = full.clone();
    codec.encode(empty, &mut buf).expect("Encoding empty");
    codec.encode(full, &mut buf).expect("Encoding full");
    codec.encode(full2, &mut buf).expect("Encoding full");
    buf.truncate(142);
    assert_eq!(empty2, codec.decode(&mut buf).expect("Decode empty").expect("Not None"));
    assert_eq!(full3, codec.decode(&mut buf).expect("Decode empty").expect("Not None"));
    assert_eq!(48, buf.len());
}

#[test]
fn codec_empty() {
    let mut codec = ThesCodec::new(1024);
    let mut buf = Vec::new();
    let data = bf_empty_data();
    let data2 = data.clone();
    codec.encode(data, &mut buf).expect("Encoding empty");
    assert_eq!(
        data2,
        codec.decode(&mut buf).expect("No errors should occur").expect("There should be some data (eg. Not Ok(None)")
    );
}

#[test]
fn codec_full() {
    let mut codec = ThesCodec::new(5);
    let mut buf = Vec::new();
    let data = bf_full_data();
    let data2 = data.clone();
    codec.encode(data, &mut buf).expect("Encoding empty");
    assert_eq!(
        data2,
        codec.decode(&mut buf).expect("No errors should occur").expect("There should be some data (eg. Not Ok(None)")
    );
}

#[test]
fn codec_partials() {
    let mut codec = ThesCodec::new(1024);
    let mut buf = Vec::new();
    let empty = bf_empty_data();
    let full = bf_full_data();
    let empty2 = empty.clone();
    let full2 = full.clone();
    let full3 = full.clone();
    codec.encode(empty, &mut buf).expect("Encoding empty");
    codec.encode(full, &mut buf).expect("Encoding full");
    codec.encode(full2, &mut buf).expect("Encoding full");
    assert_eq!(empty2, codec.decode(&mut buf).expect("Decode empty").expect("Not None"));
    assert_eq!(full3, codec.decode(&mut buf).expect("Decode empty").expect("Not None"));
    assert_eq!(45, buf.len());
}

#[test]
fn max_length() {
    let mut codec = ThesCodec::new(4);
    let mut buf = Vec::new();
    let data = bf_full_data();
    let res = codec.encode(data, &mut buf);
    assert!(matches!(
        res,
        Err(ThesRemoteErr::MessageSizeExceeded { ref context, size, max_size })
            if context == "WireFormat Codec encoder" && size == 5 && max_size == 4
    ));
}
