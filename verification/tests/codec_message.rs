use bytes::BytesMut;
use moqt_transport::codec::ControlMessageCodec;
use moqt_transport::message::{ControlMessage, MaxRequestId, RequestsBlocked};

#[test]
fn codec_requests_blocked_roundtrip() {
    let mut codec = ControlMessageCodec;
    let msg = ControlMessage::RequestsBlocked(RequestsBlocked {
        maximum_request_id: 42,
    });

    let mut buf = BytesMut::new();
    codec.encode(msg, &mut buf).unwrap();
    assert_eq!(buf.as_ref(), &[0x1A, 0x01, 0x2A]);

    let decoded = codec.decode(&mut buf).unwrap().unwrap();
    match decoded {
        ControlMessage::RequestsBlocked(rb) => {
            assert_eq!(rb.maximum_request_id, 42);
        }
        _ => panic!("unexpected message"),
    }
    assert!(buf.is_empty());
}

#[test]
fn codec_max_request_id_roundtrip() {
    let mut codec = ControlMessageCodec;
    let msg = ControlMessage::MaxRequestId(MaxRequestId { request_id: 5 });

    let mut buf = BytesMut::new();
    codec.encode(msg, &mut buf).unwrap();
    assert_eq!(buf.as_ref(), &[0x15, 0x01, 0x05]);

    let decoded = codec.decode(&mut buf).unwrap().unwrap();
    match decoded {
        ControlMessage::MaxRequestId(mr) => {
            assert_eq!(mr.request_id, 5);
        }
        _ => panic!("unexpected message"),
    }
    assert!(buf.is_empty());
}
