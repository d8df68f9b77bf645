use bytes::BytesMut;
use moqt_transport::codec::{Decode, Encode};
use moqt_transport::error::{Error, IoErrorKind};
use moqt_transport::message::UnsubscribeAnnounces;

#[test]
fn unsubscribe_announces_encode_decode_roundtrip() {
    let msg = UnsubscribeAnnounces {
        track_namespace: 1,
        track_name_prefix: "video".into(),
    };

    let mut buf = BytesMut::new();
    msg.encode(&mut buf).unwrap();

    let mut decode_buf = buf.clone();
    let decoded = UnsubscribeAnnounces::decode(&mut decode_buf).unwrap();
    assert!(decode_buf.is_empty());
    assert_eq!(decoded, msg);
}

#[test]
fn unsubscribe_announces_decode_incomplete() {
    let mut buf = BytesMut::new();
    match UnsubscribeAnnounces::decode(&mut buf) {
        Err(Error::Io(e)) => {
            assert_eq!(e.kind(), IoErrorKind::UnexpectedEof);
        }
        r => panic!("unexpected result: {:?}", r),
    }
}
