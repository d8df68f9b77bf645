use bytes::BytesMut;
use moqt_transport::codec::{Decode, Encode};
use moqt_transport::message::PublishOk;
use moqt_transport::model::{Location, Parameter};

#[test]
fn encode_decode_roundtrip_with_range() {
    let msg = PublishOk {
        request_id: 1,
        forward: 1,
        subscriber_priority: 5,
        group_order: 1,
        filter_type: 0x4,
        start: Some(Location {
            group: 10,
            object: 2,
        }),
        end_group: Some(20),
        parameters: vec![Parameter {
            parameter_type: 3,
            value: vec![7, 8],
        }],
    };

    let mut buf = BytesMut::new();
    msg.encode(&mut buf).unwrap();

    let mut decode_buf = buf.clone();
    let decoded = PublishOk::decode(&mut decode_buf).unwrap();
    assert!(decode_buf.is_empty());
    assert_eq!(decoded, msg);
}

#[test]
fn encode_decode_roundtrip_no_range() {
    let msg = PublishOk {
        request_id: 2,
        forward: 0,
        subscriber_priority: 0,
        group_order: 1,
        filter_type: 0x2,
        start: None,
        end_group: None,
        parameters: Vec::new(),
    };

    let mut buf = BytesMut::new();
    msg.encode(&mut buf).unwrap();

    let mut decode_buf = buf.clone();
    let decoded = PublishOk::decode(&mut decode_buf).unwrap();
    assert!(decode_buf.is_empty());
    assert_eq!(decoded, msg);
}
