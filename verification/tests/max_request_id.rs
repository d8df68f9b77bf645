use bytes::BytesMut;
use moqt_transport::codec::{Decode, Encode};
use moqt_transport::error::{Error, IoErrorKind};
use moqt_transport::message::MaxRequestId;

#[test]
fn max_request_id_encode_decode_roundtrip() {
    let msg = MaxRequestId {
        request_id: 0xabcdef,
    }; // some arbitrary id

    let mut buf = BytesMut::new();
    msg.encode(&mut buf).unwrap();

    let mut decode_buf = buf.clone();
    let decoded = MaxRequestId::decode(&mut decode_buf).unwrap();
    assert!(decode_buf.is_empty());
    assert_eq!(decoded, msg);
}

#[test]
fn max_request_id_encode_decode_roundtrip_large_id() {
    // use a value that requires the largest varint encoding
    let msg = MaxRequestId {
        request_id: 0x1234_5678_9abc_def0,
    };

    let mut buf = BytesMut::new();
    msg.encode(&mut buf).unwrap();

    let mut decode_buf = buf.clone();
    let decoded = MaxRequestId::decode(&mut decode_buf).unwrap();
    assert!(decode_buf.is_empty());
    assert_eq!(decoded, msg);
}

#[test]
fn max_request_id_encode_fails_on_too_large_id() {
    // values >= 2^62 cannot be encoded as a varint
    let msg = MaxRequestId {
        request_id: 1u64 << 62,
    };

    let mut buf = BytesMut::new();
    match msg.encode(&mut buf) {
        Err(Error::VarIntRange) => {}
        r => panic!("unexpected result: {:?}", r),
    }
}

#[test]
fn max_request_id_decode_incomplete() {
    let mut buf = BytesMut::new();
    match MaxRequestId::decode(&mut buf) {
        Err(Error::Io(e)) => {
            assert_eq!(e.kind(), IoErrorKind::UnexpectedEof);
        }
        r => panic!("unexpected result: {:?}", r),
    }
}

#[test]
fn max_request_id_decode_incomplete_varint() {
    let mut buf = BytesMut::from(&b"\x40"[..]);
    match MaxRequestId::decode(&mut buf) {
        Err(Error::Io(e)) => {
            assert_eq!(e.kind(), IoErrorKind::UnexpectedEof);
        }
        r => panic!("unexpected result: {:?}", r),
    }
}
