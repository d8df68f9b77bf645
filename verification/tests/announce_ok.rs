use bytes::BytesMut;
use moqt_transport::codec::{Decode, Encode};
use moqt_transport::error::{Error, IoErrorKind};
use moqt_transport::message::AnnounceOk;

#[test]
fn announce_ok_encode_decode_roundtrip() {
    let msg = AnnounceOk { request_id: 42 };

    let mut buf = BytesMut::new();
    msg.encode(&mut buf).unwrap();

    let mut decode_buf = buf.clone();
    let decoded = AnnounceOk::decode(&mut decode_buf).unwrap();
    assert!(decode_buf.is_empty());
    assert_eq!(decoded, msg);
}

#[test]
fn announce_ok_decode_incomplete() {
    let mut buf = BytesMut::new();
    match AnnounceOk::decode(&mut buf) {
        Err(Error::Io(e)) => {
            assert_eq!(e.kind(), IoErrorKind::UnexpectedEof);
        }
        r => panic!("unexpected result: {:?}", r),
    }
}
