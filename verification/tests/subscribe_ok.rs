use bytes::BytesMut;
use moqt_transport::codec::{Decode, Encode};
use moqt_transport::message::SubscribeOk;
use moqt_transport::model::{Location, Parameter};

#[test]
fn encode_decode_roundtrip_with_location() {
    let msg = SubscribeOk {
        request_id: 1,
        track_alias: 2,
        expires: 500,
        group_order: 1,
        content_exists: true,
        largest_location: Some(Location {
            group: 10,
            object: 7,
        }),
        parameters: vec![Parameter {
            parameter_type: 1,
            value: vec![42],
        }],
    };

    let mut buf = BytesMut::new();
    msg.encode(&mut buf).unwrap();

    let mut decode_buf = buf.clone();
    let decoded = SubscribeOk::decode(&mut decode_buf).unwrap();
    assert!(decode_buf.is_empty());
    assert_eq!(decoded, msg);
}

#[test]
fn encode_decode_roundtrip_without_location() {
    let msg = SubscribeOk {
        request_id: 3,
        track_alias: 4,
        expires: 0,
        group_order: 2,
        content_exists: false,
        largest_location: None,
        parameters: Vec::new(),
    };

    let mut buf = BytesMut::new();
    msg.encode(&mut buf).unwrap();

    let mut decode_buf = buf.clone();
    let decoded = SubscribeOk::decode(&mut decode_buf).unwrap();
    assert!(decode_buf.is_empty());
    assert_eq!(decoded, msg);
}
