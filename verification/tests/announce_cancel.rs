use bytes::BytesMut;
use moqt_transport::codec::{Decode, Encode};
use moqt_transport::message::AnnounceCancel;

#[test]
fn announce_cancel_encode_decode_roundtrip_with_reason() {
    let msg = AnnounceCancel {
        track_namespace: 42,
        error_code: 3,
        error_reason: "going away".into(),
    };

    let mut buf = BytesMut::new();
    msg.encode(&mut buf).unwrap();

    let mut decode_buf = buf.clone();
    let decoded = AnnounceCancel::decode(&mut decode_buf).unwrap();
    assert!(decode_buf.is_empty());
    assert_eq!(decoded, msg);
}

#[test]
fn announce_cancel_encode_decode_roundtrip_empty_reason() {
    let msg = AnnounceCancel {
        track_namespace: 1,
        error_code: 0x1,
        error_reason: String::new(),
    };

    let mut buf = BytesMut::new();
    msg.encode(&mut buf).unwrap();

    let mut decode_buf = buf.clone();
    let decoded = AnnounceCancel::decode(&mut decode_buf).unwrap();
    assert!(decode_buf.is_empty());
    assert_eq!(decoded, msg);
}
