use bytes::BytesMut;
use moqt_transport::codec::{Decode, Encode, VarInt};
use moqt_transport::error::{Error, IoErrorKind};
use moqt_transport::message::SubscribeAnnounces;
use moqt_transport::model::Parameter;

#[test]
fn subscribe_announces_encode_decode_roundtrip() {
    let msg = SubscribeAnnounces {
        request_id: 1,
        track_namespace_prefix: vec!["example.com".into(), "meeting=123".into()],
        parameters: vec![Parameter {
            parameter_type: 1,
            value: vec![42],
        }],
    };

    let mut buf = BytesMut::new();
    msg.encode(&mut buf).unwrap();

    let mut decode_buf = buf.clone();
    let decoded = SubscribeAnnounces::decode(&mut decode_buf).unwrap();
    assert!(decode_buf.is_empty());
    assert_eq!(decoded, msg);
}

#[test]
fn subscribe_announces_decode_incomplete() {
    let mut buf = BytesMut::new();
    match SubscribeAnnounces::decode(&mut buf) {
        Err(Error::Io(e)) => {
            assert_eq!(e.kind(), IoErrorKind::UnexpectedEof);
        }
        r => panic!("unexpected result: {:?}", r),
    }
}

#[test]
fn decode_fails_on_invalid_prefix_len() {
    let mut buf = BytesMut::new();
    let mut vi = VarInt;
    vi.encode(1, &mut buf).unwrap(); // request_id
    vi.encode(0, &mut buf).unwrap(); // invalid prefix length
    vi.encode(0, &mut buf).unwrap(); // parameters len

    assert!(SubscribeAnnounces::decode(&mut buf).is_err());
}
