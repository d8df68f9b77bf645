use bytes::BytesMut;
use moqt_transport::codec::{Decode, Encode};
use moqt_transport::message::Subscribe;
use moqt_transport::model::{Location, Parameter};

#[test]
fn encode_decode_roundtrip_absolute_range() {
    let msg = Subscribe {
        request_id: 1,
        track_namespace: 2,
        track_name: "video".into(),
        subscriber_priority: 3,
        group_order: 1,
        forward: 1,
        filter_type: 0x4,
        start_location: Some(Location { group: 10, object: 5 }),
        end_group: Some(20),
        parameters: vec![Parameter { parameter_type: 1, value: vec![42] }],
    };

    let mut buf = BytesMut::new();
    msg.encode(&mut buf).unwrap();

    let mut decode_buf = buf.clone();
    let decoded = Subscribe::decode(&mut decode_buf).unwrap();
    assert!(decode_buf.is_empty());
    assert_eq!(decoded, msg);
}

#[test]
fn encode_decode_roundtrip_largest_object() {
    let msg = Subscribe {
        request_id: 5,
        track_namespace: 7,
        track_name: "audio".into(),
        subscriber_priority: 0,
        group_order: 0,
        forward: 1,
        filter_type: 0x2,
        start_location: None,
        end_group: None,
        parameters: Vec::new(),
    };

    let mut buf = BytesMut::new();
    msg.encode(&mut buf).unwrap();

    let mut decode_buf = buf.clone();
    let decoded = Subscribe::decode(&mut decode_buf).unwrap();
    assert!(decode_buf.is_empty());
    assert_eq!(decoded, msg);
}
