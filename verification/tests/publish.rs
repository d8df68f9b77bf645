use bytes::BytesMut;
use moqt_transport::codec::{Decode, Encode};
use moqt_transport::message::Publish;
use moqt_transport::model::{Location, Parameter};

#[test]
fn encode_decode_roundtrip_with_content() {
    let msg = Publish {
        request_id: 1,
        track_namespace: 2,
        track_name: "video".into(),
        track_alias: 3,
        group_order: 1,
        content_exists: 1,
        largest: Some(Location {
            group: 10,
            object: 5,
        }),
        forward: 1,
        parameters: vec![Parameter {
            parameter_type: 4,
            value: vec![0x47, 0x08], // 1800, in two bytes
        }],
    };

    let mut buf = BytesMut::new();
    msg.encode(&mut buf).unwrap();

    let mut decode_buf = buf.clone();
    let decoded = Publish::decode(&mut decode_buf).unwrap();
    assert!(decode_buf.is_empty());
    assert_eq!(decoded, msg);
}

#[test]
fn encode_decode_roundtrip_without_content() {
    let msg = Publish {
        request_id: 5,
        track_namespace: 7,
        track_name: "audio".into(),
        track_alias: 8,
        group_order: 1,
        content_exists: 0,
        largest: None,
        forward: 0,
        parameters: Vec::new(),
    };

    let mut buf = BytesMut::new();
    msg.encode(&mut buf).unwrap();

    let mut decode_buf = buf.clone();
    let decoded = Publish::decode(&mut decode_buf).unwrap();
    assert!(decode_buf.is_empty());
    assert_eq!(decoded, msg);
}
