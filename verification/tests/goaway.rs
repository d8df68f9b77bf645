use bytes::BytesMut;
use moqt_transport::codec::{Decode, Encode, VarInt};
use moqt_transport::message::Goaway;

#[test]
fn encode_decode_roundtrip_with_uri() {
    let msg = Goaway {
        new_session_uri: Some("https://example.com/moq".to_string()),
    };

    let mut buf = BytesMut::new();
    msg.encode(&mut buf).unwrap();

    let mut decode_buf = buf.clone();
    let decoded = Goaway::decode(&mut decode_buf).unwrap();
    assert!(decode_buf.is_empty());
    assert_eq!(decoded, msg);
}

#[test]
fn encode_decode_roundtrip_without_uri() {
    let msg = Goaway {
        new_session_uri: None,
    };

    let mut buf = BytesMut::new();
    msg.encode(&mut buf).unwrap();

    let mut decode_buf = buf.clone();
    let decoded = Goaway::decode(&mut decode_buf).unwrap();
    assert!(decode_buf.is_empty());
    assert_eq!(decoded, msg);
}

#[test]
fn encode_fails_on_long_uri() {
    let msg = Goaway {
        new_session_uri: Some("a".repeat(Goaway::MAX_URI_LENGTH + 1)),
    };

    let mut buf = BytesMut::new();
    assert!(msg.encode(&mut buf).is_err());
}

#[test]
fn decode_fails_on_long_uri() {
    let mut buf = BytesMut::new();
    let mut vi = VarInt;
    vi.encode((Goaway::MAX_URI_LENGTH + 1) as u64, &mut buf).unwrap();
    buf.extend(std::iter::repeat(b'a').take(Goaway::MAX_URI_LENGTH + 1));

    assert!(Goaway::decode(&mut buf).is_err());
}
