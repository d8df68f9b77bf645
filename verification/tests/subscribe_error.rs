use bytes::BytesMut;
use moqt_transport::codec::{Decode, Encode};
use moqt_transport::message::SubscribeError;

#[test]
fn subscribe_error_encode_decode_roundtrip_with_reason() {
    let msg = SubscribeError {
        request_id: 42,
        error_code: 0x4,
        error_reason: "track missing".into(),
    };

    let mut buf = BytesMut::new();
    msg.encode(&mut buf).unwrap();

    let mut decode_buf = buf.clone();
    let decoded = SubscribeError::decode(&mut decode_buf).unwrap();
    assert!(decode_buf.is_empty());
    assert_eq!(decoded, msg);
}

#[test]
fn subscribe_error_encode_decode_roundtrip_empty_reason() {
    let msg = SubscribeError {
        request_id: 1,
        error_code: 0x1,
        error_reason: String::new(),
    };

    let mut buf = BytesMut::new();
    msg.encode(&mut buf).unwrap();

    let mut decode_buf = buf.clone();
    let decoded = SubscribeError::decode(&mut decode_buf).unwrap();
    assert!(decode_buf.is_empty());
    assert_eq!(decoded, msg);
}
